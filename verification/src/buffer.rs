//! A fixed-capacity rolling window of the most recent samples.
//!
//! The buffer holds `N` optional points, newest first. A push shifts every
//! entry one slot toward the oldest end, discards the entry that falls off,
//! and writes the new point into slot 0. Entries are never reordered beyond
//! this shift, so the window is a true FIFO-by-age ring with eviction of
//! the oldest member.

use vstd::prelude::*;

use crate::geometry::Point;

verus! {

/// What one push does to the window: the new point enters at slot 0,
/// everything else moves one slot toward the old end, the last entry
/// is discarded.
pub open spec fn spec_push(s: Seq<Option<Point>>, p: Point) -> Seq<Option<Point>>
    recommends
        s.len() >= 1,
{
    seq![Some(p)] + s.drop_last()
}

/// The window after pushing the points of `ps` in order, `ps[0]` first.
pub open spec fn spec_push_all(s: Seq<Option<Point>>, ps: Seq<Point>) -> Seq<Option<Point>>
    decreases ps.len(),
{
    if ps.len() == 0 {
        s
    } else {
        spec_push_all(spec_push(s, ps[0]), ps.drop_first())
    }
}

/// A rolling window of at most `N` most-recent points; slots not yet
/// filled hold `None`.
#[derive(Debug)]
pub struct SeriesBuffer<const N: usize> {
    slots: [Option<Point>; N],
}

impl<const N: usize> SeriesBuffer<N> {
    /// The mathematical content of the buffer: its slots, newest first.
    pub closed spec fn view(&self) -> Seq<Option<Point>> {
        self.slots@
    }

    /// A buffer with all `N` slots empty.
    pub fn empty() -> (b: SeriesBuffer<N>)
        ensures
            b@ =~= Seq::new(N as nat, |i: int| None::<Point>),
    {
        SeriesBuffer { slots: vstd::array::array_fill_for_copy_types(None) }
    }

    /// Inserts `point` at slot 0 after shifting every entry one slot
    /// toward the oldest end; the oldest entry is evicted.
    pub fn push(&mut self, point: Point)
        requires
            N >= 1,
        ensures
            final(self)@ =~= spec_push(old(self)@, point),
    {
        let mut i: usize = N - 1;
        while i >= 1
            invariant
                N >= 1,
                i < N,
                self@.len() == N,
                forall|k: int| 0 <= k <= i ==> self@[k] == old(self)@[k],
                forall|k: int| i < k < N ==> self@[k] == old(self)@[k - 1],
            decreases i,
        {
            let shifted: Option<Point> = self.slots[i - 1];
            self.slots[i] = shifted;
            i = i - 1;
        }
        self.slots[0] = Some(point);
    }

    /// The slot at index `i`: `None` while it has not been filled yet.
    pub fn get(&self, i: usize) -> (v: Option<Point>)
        requires
            i < N,
        ensures
            v == self@[i as int],
    {
        self.slots[i]
    }

    /// Overwrites one slot in place; the chart uses this to rewrite its
    /// window from domain space to display space.
    pub(crate) fn set_slot(&mut self, i: usize, v: Option<Point>)
        requires
            i < N,
        ensures
            final(self)@ == old(self)@.update(i as int, v),
    {
        self.slots[i] = v;
    }

    /// The window always has exactly `N` slots.
    pub proof fn lemma_capacity(&self)
        ensures
            self@.len() == N,
    {
    }

    /// The ordered sequence of optional points, newest first, length `N`.
    pub fn snapshot(&self) -> (s: &[Option<Point>])
        ensures
            s@ == self@,
    {
        self.slots.as_slice()
    }
}

/// Law: pushing `N + 1` points into a window of `N` slots leaves exactly
/// the `N` most recent of them, the newest at slot 0 and the first-pushed
/// point evicted, whatever the window held before.
pub proof fn lemma_rolling_window(s: Seq<Option<Point>>, ps: Seq<Point>)
    requires
        s.len() >= 1,
        ps.len() == s.len() + 1,
    ensures
        spec_push_all(s, ps).len() == s.len(),
        forall|i: int|
            0 <= i < s.len() ==> spec_push_all(s, ps)[i] == Some(ps[ps.len() - 1 - i]),
    decreases ps.len(),
{
    lemma_push_all_prefix(s, ps);
}

/// After pushing any `ps` in order, the youngest `ps.len()` slots hold the
/// pushed points newest-first and the remaining slots hold the old entries,
/// shifted by `ps.len()`.
proof fn lemma_push_all_prefix(s: Seq<Option<Point>>, ps: Seq<Point>)
    requires
        s.len() >= 1,
    ensures
        spec_push_all(s, ps).len() == s.len(),
        forall|i: int|
            0 <= i < s.len() && i < ps.len() ==> spec_push_all(s, ps)[i] == Some(
                ps[ps.len() - 1 - i],
            ),
        forall|i: int|
            ps.len() <= i < s.len() ==> spec_push_all(s, ps)[i] == s[i - ps.len()],
    decreases ps.len(),
{
    if ps.len() == 0 {
    } else {
        lemma_push_all_prefix(spec_push(s, ps[0]), ps.drop_first());
        assert forall|i: int|
            0 <= i < s.len() && i < ps.len() implies spec_push_all(s, ps)[i] == Some(
            ps[ps.len() - 1 - i],
        ) by {
            let s1 = spec_push(s, ps[0]);
            let qs = ps.drop_first();
            if i < qs.len() {
                assert(qs[qs.len() - 1 - i] == ps[ps.len() - 1 - i]);
            } else {
                assert(i == ps.len() - 1);
                assert(spec_push_all(s, ps)[i] == s1[i - qs.len()]);
                assert(s1[0] == Some(ps[0]));
            }
        }
    }
}

} // verus!
