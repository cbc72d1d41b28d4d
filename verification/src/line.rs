//! A line chart: two axes, a rolling window of samples, and the geometry
//! of drawing the connecting segments.
//!
//! The chart has two phases. In the domain phase the buffered points are
//! in data units; `scale_points_to_display` rewrites every occupied slot
//! into display pixel coordinates in one irreversible step — applying it
//! twice to the same data would rescale display coordinates as though
//! they were domain data. Drawing then walks the window in adjacent
//! pairs, stopping at the first pair with an empty slot.

use vstd::prelude::*;

use crate::axis::{geometry_matches, Axis, AxisGeometry, Direction};
use crate::buffer::{spec_push, SeriesBuffer};
use crate::geometry::{fits_i32, ChartError, Point, Size};
use crate::{spec_scale_point, spec_try_scale_value, try_scale_value};

verus! {

/// One stroked line segment of the chart, in display pixel coordinates.
#[derive(Clone, Copy, Debug, PartialEq, Eq, Structural)]
pub struct Segment {
    pub p1: Point,
    pub p2: Point,
}

/// A single-series line chart: an x axis, a y axis, a rolling window of
/// the `N` most recent samples, and per-series styling.
#[derive(Debug)]
pub struct LineChart<C, const N: usize> {
    pub points: SeriesBuffer<N>,
    pub x_axis: Axis<C>,
    pub y_axis: Axis<C>,
    pub line_color: C,
    pub point_color: C,
    pub line_width: u32,
    pub point_diameter: u32,
    pub show_points: bool,
}

/// Named optional settings for constructing a `LineChart`; every `None`
/// falls back to a documented default. The sample window always starts
/// empty.
#[derive(Debug)]
pub struct LineChartConfig<C> {
    /// Default is the default horizontal axis.
    pub x_axis: Option<Axis<C>>,
    /// Default is the default vertical axis.
    pub y_axis: Option<Axis<C>>,
    /// Default is the color type's default value.
    pub line_color: Option<C>,
    /// Default is the color type's default value.
    pub point_color: Option<C>,
    /// Default 3.
    pub line_width: Option<u32>,
    /// Default 5.
    pub point_diameter: Option<u32>,
    /// Default true.
    pub show_points: Option<bool>,
}

impl<C> Default for LineChartConfig<C> {
    /// A configuration with every option left to its default.
    fn default() -> (c: LineChartConfig<C>)
        ensures
            c.x_axis is None && c.y_axis is None && c.line_color is None && c.point_color is None,
            c.line_width is None && c.point_diameter is None && c.show_points is None,
    {
        LineChartConfig {
            x_axis: None,
            y_axis: None,
            line_color: None,
            point_color: None,
            line_width: None,
            point_diameter: None,
            show_points: None,
        }
    }
}

/// Are `a` and `b` equal in every field except the sample window?
pub open spec fn same_but_points<C, const N: usize>(a: LineChart<C, N>, b: LineChart<C, N>) -> bool {
    a.x_axis == b.x_axis && a.y_axis == b.y_axis && a.line_color == b.line_color && a.point_color
        == b.point_color && a.line_width == b.line_width && a.point_diameter == b.point_diameter
        && a.show_points == b.show_points
}

impl<C: Default, const N: usize> LineChart<C, N> {
    /// Builds a chart from a configuration, filling every unset option
    /// with its documented default; the sample window starts empty.
    pub fn from_config(config: LineChartConfig<C>) -> (chart: LineChart<C, N>)
        ensures
            chart.points@ =~= Seq::new(N as nat, |i: int| None::<Point>),
            match config.x_axis {
                Some(a) => chart.x_axis == a,
                None => crate::axis::spec_is_default_axis(chart.x_axis, Direction::Horizontal),
            },
            match config.y_axis {
                Some(a) => chart.y_axis == a,
                None => crate::axis::spec_is_default_axis(chart.y_axis, Direction::Vertical),
            },
            config.line_color is Some ==> chart.line_color == config.line_color->0,
            config.point_color is Some ==> chart.point_color == config.point_color->0,
            chart.line_width == (match config.line_width { Some(v) => v, None => 3 }),
            chart.point_diameter == (match config.point_diameter { Some(v) => v, None => 5 }),
            chart.show_points == (match config.show_points { Some(v) => v, None => true }),
    {
        LineChart {
            points: SeriesBuffer::empty(),
            x_axis: match config.x_axis { Some(a) => a, None => Axis::default_x_axis() },
            y_axis: match config.y_axis { Some(a) => a, None => Axis::default_y_axis() },
            line_color: match config.line_color { Some(v) => v, None => C::default() },
            point_color: match config.point_color { Some(v) => v, None => C::default() },
            line_width: match config.line_width { Some(v) => v, None => 3 },
            point_diameter: match config.point_diameter { Some(v) => v, None => 5 },
            show_points: match config.show_points { Some(v) => v, None => true },
        }
    }
}

impl<C: Default> Default for LineChart<C, 5> {
    /// The default chart: every option at its default, five sample slots.
    fn default() -> (chart: LineChart<C, 5>)
        ensures
            chart.points@ =~= Seq::new(5, |i: int| None::<Point>),
            crate::axis::spec_is_default_axis(chart.x_axis, Direction::Horizontal),
            crate::axis::spec_is_default_axis(chart.y_axis, Direction::Vertical),
            chart.line_width == 3 && chart.point_diameter == 5 && chart.show_points == true,
    {
        LineChart::from_config(LineChartConfig::default())
    }
}

impl<C, const N: usize> LineChart<C, N> {
    /// Appends a domain point to the sample window: every entry shifts
    /// one slot toward the oldest end and the oldest entry is evicted.
    pub fn push(&mut self, new_point: Point)
        requires
            N >= 1,
        ensures
            final(self).points@ =~= spec_push(old(self).points@, new_point),
            same_but_points(*final(self), *old(self)),
    {
        self.points.push(new_point);
    }

    /// The ordered sample window, newest first, length `N`.
    pub fn get_points(&self) -> (s: &[Option<Point>])
        ensures
            s@ == self.points@,
    {
        self.points.snapshot()
    }
}

/// The display-space image of one domain point, or the error that scaling
/// it reports: its x scaled against the x range, then its y scaled against
/// the y range — provided the lower bound of the y target range fits the
/// 32-bit pixel space.
pub open spec fn spec_scale_slot(
    p: Point,
    display: Size,
    origin: Point,
    x_min: int,
    x_max: int,
    y_min: int,
    y_max: int,
) -> Result<Point, ChartError> {
    match spec_try_scale_value(p.x as int, x_min, x_max, origin.x as int, display.width as int) {
        Err(e) => Err(e),
        Ok(sx) => if !fits_i32(display.height - origin.y) {
            Err(ChartError::OutOfBounds)
        } else {
            match spec_try_scale_value(
                p.y as int,
                y_min,
                y_max,
                display.height - origin.y,
                display.height as int,
            ) {
                Err(e) => Err(e),
                Ok(sy) => Ok(Point { x: sx, y: sy }),
            }
        },
    }
}


/// The per-slot scaling agrees with `scale_point`: whenever a slot can be
/// scaled, its image is exactly the point that `scale_point` would
/// compute from the same display, origin and ranges.
pub proof fn lemma_slot_scaled_is_scale_point(
    p: Point,
    display: Size,
    origin: Point,
    x_min: int,
    x_max: int,
    y_min: int,
    y_max: int,
)
    requires
        spec_scale_slot(p, display, origin, x_min, x_max, y_min, y_max) is Ok,
    ensures
        ({
            let q = spec_scale_slot(p, display, origin, x_min, x_max, y_min, y_max)->Ok_0;
            let s = spec_scale_point(p, display, origin, x_min, x_max, y_min, y_max);
            q.x == s.0 && q.y == s.1
        }),
{
}

/// One slot of the window after the scaling pass: an empty slot stays
/// empty, an occupied one is replaced by its display-space image.
pub open spec fn spec_slot_scaled(
    slot: Option<Point>,
    display: Size,
    origin: Point,
    x_min: int,
    x_max: int,
    y_min: int,
    y_max: int,
) -> Result<Option<Point>, ChartError> {
    match slot {
        None => Ok(None),
        Some(p) => match spec_scale_slot(p, display, origin, x_min, x_max, y_min, y_max) {
            Err(e) => Err(e),
            Ok(q) => Ok(Some(q)),
        },
    }
}

/// The whole window after the scaling pass, or the error of the first
/// slot (in index order) that cannot be scaled.
pub open spec fn spec_scale_slots(
    slots: Seq<Option<Point>>,
    display: Size,
    origin: Point,
    x_min: int,
    x_max: int,
    y_min: int,
    y_max: int,
) -> Result<Seq<Option<Point>>, ChartError>
    decreases slots.len(),
{
    if slots.len() == 0 {
        Ok(Seq::empty())
    } else {
        match spec_slot_scaled(slots[0], display, origin, x_min, x_max, y_min, y_max) {
            Err(e) => Err(e),
            Ok(v) => match spec_scale_slots(
                slots.drop_first(),
                display,
                origin,
                x_min,
                x_max,
                y_min,
                y_max,
            ) {
                Err(e) => Err(e),
                Ok(t) => Ok(seq![v] + t),
            },
        }
    }
}

/// How a prefix of all-scalable slots determines the outcome of the whole
/// pass: with every slot below `i` scalable, either `i` reaches the end
/// and the pass succeeds slot by slot, or slot `i` fails and its error is
/// the error of the pass.
proof fn lemma_scale_slots_prefix(
    slots: Seq<Option<Point>>,
    display: Size,
    origin: Point,
    x_min: int,
    x_max: int,
    y_min: int,
    y_max: int,
    i: int,
)
    requires
        0 <= i <= slots.len(),
        forall|k: int|
            0 <= k < i ==> (#[trigger] spec_slot_scaled(
                slots[k],
                display,
                origin,
                x_min,
                x_max,
                y_min,
                y_max,
            )) is Ok,
    ensures
        i == slots.len() ==> (match spec_scale_slots(
            slots,
            display,
            origin,
            x_min,
            x_max,
            y_min,
            y_max,
        ) {
            Ok(s) => s.len() == slots.len() && forall|k: int|
                0 <= k < slots.len() ==> s[k] == spec_slot_scaled(
                    slots[k],
                    display,
                    origin,
                    x_min,
                    x_max,
                    y_min,
                    y_max,
                )->Ok_0,
            Err(_) => false,
        }),
        (i < slots.len() && spec_slot_scaled(
            slots[i],
            display,
            origin,
            x_min,
            x_max,
            y_min,
            y_max,
        ) is Err) ==> spec_scale_slots(slots, display, origin, x_min, x_max, y_min, y_max)
            == Err::<Seq<Option<Point>>, ChartError>(
            spec_slot_scaled(slots[i], display, origin, x_min, x_max, y_min, y_max)->Err_0,
        ),
    decreases slots.len(),
{
    if slots.len() > 0 {
        if i > 0 {
            lemma_scale_slots_prefix(
                slots.drop_first(),
                display,
                origin,
                x_min,
                x_max,
                y_min,
                y_max,
                i - 1,
            );
        }
    }
}

impl<C, const N: usize> LineChart<C, N> {
    /// The window after `scale_points_to_display`, or the error it
    /// reports: every occupied slot replaced by its display-space image,
    /// scaled against the axes' current ranges and the x axis's starting
    /// coordinates.
    pub open spec fn spec_scale_chart(&self, display: Size) -> Result<
        Seq<Option<Point>>,
        ChartError,
    > {
        match self.x_axis.spec_start_point(display) {
            Err(e) => Err(e),
            Ok(o) => if !(fits_i32(o.0) && fits_i32(o.1)) {
                Err(ChartError::OutOfBounds)
            } else {
                spec_scale_slots(
                    self.points@,
                    display,
                    Point { x: o.0 as i32, y: o.1 as i32 },
                    self.x_axis.min as int,
                    self.x_axis.max as int,
                    self.y_axis.min as int,
                    self.y_axis.max as int,
                )
            },
        }
    }

    /// Rewrites every occupied slot of the window from domain space to
    /// display pixel space, in place, using the axes' current ranges and
    /// the x axis's starting coordinates as the origin. Irreversible for
    /// the buffered data: calling it twice would rescale display
    /// coordinates as though they were domain data. Fails — leaving the
    /// chart untouched — when the starting coordinates cannot be
    /// computed or when any occupied slot cannot be scaled.
    pub fn scale_points_to_display(&mut self, display: &Size) -> (r: Result<(), ChartError>)
        requires
            display.width <= i32::MAX,
            display.height <= i32::MAX,
        ensures
            match old(self).spec_scale_chart(*display) {
                Ok(s) => r == Ok::<(), ChartError>(()) && final(self).points@ == s
                    && same_but_points(*final(self), *old(self)),
                Err(e) => r == Err::<(), ChartError>(e) && *final(self) == *old(self),
            },
    {
        let ghost x_min = self.x_axis.min as int;
        let ghost x_max = self.x_axis.max as int;
        let ghost y_min = self.y_axis.min as int;
        let ghost y_max = self.y_axis.max as int;
        let origin = match self.x_axis.calculate_starting_coordinates(display) {
            Ok(p) => p,
            Err(e) => {
                return Err(e);
            },
        };
        let mut out: SeriesBuffer<N> = SeriesBuffer::empty();
        let mut i: usize = 0;
        proof {
            self.points.lemma_capacity();
        }
        while i < N
            invariant
                i <= N,
                *self == *old(self),
                display.width <= i32::MAX,
                display.height <= i32::MAX,
                self.points@.len() == N,
                out@.len() == N,
                x_min == self.x_axis.min as int && x_max == self.x_axis.max as int,
                y_min == self.y_axis.min as int && y_max == self.y_axis.max as int,
                match self.x_axis.spec_start_point(*display) {
                    Ok(o) => fits_i32(o.0) && fits_i32(o.1) && origin == (Point {
                        x: o.0 as i32,
                        y: o.1 as i32,
                    }),
                    Err(_) => false,
                },
                forall|k: int|
                    0 <= k < i ==> (#[trigger] spec_slot_scaled(
                        self.points@[k],
                        *display,
                        origin,
                        x_min,
                        x_max,
                        y_min,
                        y_max,
                    )) is Ok && out@[k] == spec_slot_scaled(
                        self.points@[k],
                        *display,
                        origin,
                        x_min,
                        x_max,
                        y_min,
                        y_max,
                    )->Ok_0,
            decreases N - i,
        {
            match self.points.get(i) {
                None => {
                    out.set_slot(i, None);
                },
                Some(p) => {
                    let sx = match try_scale_value(
                        p.x,
                        self.x_axis.min,
                        self.x_axis.max,
                        origin.x,
                        display.width as i32,
                    ) {
                        Ok(v) => v,
                        Err(e) => {
                            proof {
                                lemma_scale_slots_prefix(
                                    self.points@,
                                    *display,
                                    origin,
                                    x_min,
                                    x_max,
                                    y_min,
                                    y_max,
                                    i as int,
                                );
                            }
                            return Err(e);
                        },
                    };
                    let lower: i64 = display.height as i64 - origin.y as i64;
                    if !(i32::MIN as i64 <= lower && lower <= i32::MAX as i64) {
                        proof {
                            lemma_scale_slots_prefix(
                                self.points@,
                                *display,
                                origin,
                                x_min,
                                x_max,
                                y_min,
                                y_max,
                                i as int,
                            );
                        }
                        return Err(ChartError::OutOfBounds);
                    }
                    let sy = match try_scale_value(
                        p.y,
                        self.y_axis.min,
                        self.y_axis.max,
                        display.height as i32 - origin.y,
                        display.height as i32,
                    ) {
                        Ok(v) => v,
                        Err(e) => {
                            proof {
                                lemma_scale_slots_prefix(
                                    self.points@,
                                    *display,
                                    origin,
                                    x_min,
                                    x_max,
                                    y_min,
                                    y_max,
                                    i as int,
                                );
                            }
                            return Err(e);
                        },
                    };
                    out.set_slot(i, Some(Point { x: sx, y: sy }));
                },
            }
            i = i + 1;
        }
        proof {
            lemma_scale_slots_prefix(
                self.points@,
                *display,
                origin,
                x_min,
                x_max,
                y_min,
                y_max,
                N as int,
            );
        }
        self.points = out;
        Ok(())
    }
}

/// Are the two slots of pair `k` both occupied, with both flipped y
/// coordinates inside the 32-bit pixel space?
pub open spec fn spec_pair_good(slots: Seq<Option<Point>>, k: int, h: int) -> bool
    recommends
        0 <= k && k + 1 < slots.len(),
{
    match (slots[k], slots[k + 1]) {
        (Some(p1), Some(p2)) => fits_i32(h - p1.y) && fits_i32(h - p2.y),
        _ => false,
    }
}

/// The stroked segment of pair `k`: both endpoints with their y flipped
/// for the pixel-coordinate convention.
pub open spec fn spec_seg(slots: Seq<Option<Point>>, k: int, h: int) -> Segment
    recommends
        0 <= k && k + 1 < slots.len(),
        spec_pair_good(slots, k, h),
{
    match (slots[k], slots[k + 1]) {
        (Some(p1), Some(p2)) => Segment {
            p1: Point { x: p1.x, y: (h - p1.y) as i32 },
            p2: Point { x: p2.x, y: (h - p2.y) as i32 },
        },
        _ => Segment { p1: Point { x: 0, y: 0 }, p2: Point { x: 0, y: 0 } },
    }
}

/// The segments that drawing the window paints: the window walked in
/// adjacent pairs, each point's y flipped against the display height,
/// stopping at the first pair with an empty slot. A flipped coordinate
/// outside the 32-bit pixel space is an error.
pub open spec fn spec_segments(slots: Seq<Option<Point>>, h: int) -> Result<Seq<Segment>, ChartError>
    decreases slots.len(),
{
    if slots.len() < 2 {
        Ok(Seq::empty())
    } else {
        match (slots[0], slots[1]) {
            (Some(p1), Some(p2)) => if fits_i32(h - p1.y) && fits_i32(h - p2.y) {
                match spec_segments(slots.drop_first(), h) {
                    Err(e) => Err(e),
                    Ok(t) => Ok(
                        seq![
                            Segment {
                                p1: Point { x: p1.x, y: (h - p1.y) as i32 },
                                p2: Point { x: p2.x, y: (h - p2.y) as i32 },
                            },
                        ] + t,
                    ),
                }
            } else {
                Err(ChartError::OutOfBounds)
            },
            _ => Ok(Seq::empty()),
        }
    }
}

/// How a prefix of good pairs determines the segment walk: with every
/// pair below `i` good, the walk over the whole window is the `i` prefix
/// segments followed by whatever the walk over the window from `i` on
/// yields.
proof fn lemma_segments_prefix(slots: Seq<Option<Point>>, h: int, i: int)
    requires
        0 <= i,
        i == 0 || i + 1 <= slots.len(),
        forall|k: int| 0 <= k < i ==> #[trigger] spec_pair_good(slots, k, h),
    ensures
        spec_segments(slots, h) == (match spec_segments(slots.skip(i), h) {
            Err(e) => Err::<Seq<Segment>, ChartError>(e),
            Ok(t) => Ok::<Seq<Segment>, ChartError>(
                Seq::new(i as nat, |k: int| spec_seg(slots, k, h)) + t,
            ),
        }),
    decreases i,
{
    if i == 0 {
        assert(slots.skip(0) =~= slots);
        match spec_segments(slots, h) {
            Err(e) => {},
            Ok(t) => {
                assert(Seq::new(0, |k: int| spec_seg(slots, k, h)) + t =~= t);
            },
        }
    } else {
        lemma_segments_prefix(slots, h, i - 1);
        let rest = slots.skip(i - 1);
        assert(rest.drop_first() =~= slots.skip(i));
        assert(spec_pair_good(slots, i - 1, h));
        assert(rest[0] == slots[i - 1] && rest[1] == slots[i]);
        match spec_segments(slots.skip(i), h) {
            Err(e) => {},
            Ok(t) => {
                assert(spec_segments(rest, h) == Ok::<Seq<Segment>, ChartError>(
                    seq![spec_seg(slots, i - 1, h)] + t,
                ));
                assert(Seq::new((i - 1) as nat, |k: int| spec_seg(slots, k, h)) + (seq![
                    spec_seg(slots, i - 1, h),
                ] + t) =~= Seq::new(i as nat, |k: int| spec_seg(slots, k, h)) + t);
            },
        }
    }
}

/// Everything a drawing surface needs to paint one chart: the geometry
/// of both axes — `None` for an invisible horizontal axis — and the
/// stroked segments between consecutive buffered points, in display
/// pixel coordinates. Marker circles, when the chart shows points, are
/// centered on the segments\' endpoints.
#[derive(Debug)]
pub struct ChartPlan {
    pub x_axis: Option<AxisGeometry>,
    pub y_axis: Option<AxisGeometry>,
    pub segments: Vec<Segment>,
}

impl<C, const N: usize> LineChart<C, N> {
    /// Computes everything a drawing surface should paint for this
    /// chart: the x axis, the y axis, then one segment per adjacent pair
    /// of buffered points — each endpoint\'s y flipped against the
    /// display height — stopping at the first pair with an empty slot.
    pub fn draw_geometry(&self, display: &Size) -> (r: Result<ChartPlan, ChartError>)
        requires
            display.width <= i32::MAX,
            display.height <= i32::MAX,
        ensures
            ({
                let rx = self.x_axis.spec_draw_geometry(*display);
                let ry = self.y_axis.spec_draw_geometry(*display);
                match rx {
                    Err(e) => r == Err::<ChartPlan, ChartError>(e),
                    Ok(_) => match ry {
                        Err(e) => r == Err::<ChartPlan, ChartError>(e),
                        Ok(_) => match spec_segments(self.points@, display.height as int) {
                            Err(e) => r == Err::<ChartPlan, ChartError>(e),
                            Ok(segs) => r matches Ok(plan) && geometry_matches(
                                self.x_axis,
                                *display,
                                Ok(plan.x_axis),
                            ) && geometry_matches(self.y_axis, *display, Ok(plan.y_axis))
                                && plan.segments@ == segs,
                        },
                    },
                }
            }),
    {
        let x_geometry = match self.x_axis.draw_geometry(display) {
            Ok(g) => g,
            Err(e) => {
                return Err(e);
            },
        };
        let y_geometry = match self.y_axis.draw_geometry(display) {
            Ok(g) => g,
            Err(e) => {
                return Err(e);
            },
        };
        let ghost h = display.height as int;
        let mut segments: Vec<Segment> = Vec::new();
        let mut i: usize = 0;
        proof {
            self.points.lemma_capacity();
        }
        while i + 1 < N
            invariant
                i + 1 <= N || i == 0,
                display.width <= i32::MAX,
                display.height <= i32::MAX,
                h == display.height as int,
                self.points@.len() == N,
                geometry_matches(self.x_axis, *display, Ok(x_geometry)),
                geometry_matches(self.y_axis, *display, Ok(y_geometry)),
                self.x_axis.spec_draw_geometry(*display) is Ok,
                self.y_axis.spec_draw_geometry(*display) is Ok,
                segments@.len() == i,
                forall|k: int| 0 <= k < i ==> #[trigger] spec_pair_good(self.points@, k, h),
                forall|k: int| 0 <= k < i ==> segments@[k] == spec_seg(self.points@, k, h),
            decreases N - i,
        {
            let first = self.points.get(i);
            let second = self.points.get(i + 1);
            match (first, second) {
                (Some(p1), Some(p2)) => {
                    let f1: i64 = display.height as i64 - p1.y as i64;
                    let f2: i64 = display.height as i64 - p2.y as i64;
                    if !(i32::MIN as i64 <= f1 && f1 <= i32::MAX as i64 && i32::MIN as i64 <= f2
                        && f2 <= i32::MAX as i64) {
                        proof {
                            lemma_segments_prefix(self.points@, h, i as int);
                            let rest = self.points@.skip(i as int);
                            assert(rest[0] == self.points@[i as int]);
                            assert(rest[1] == self.points@[i + 1]);
                        }
                        return Err(ChartError::OutOfBounds);
                    }
                    segments.push(
                        Segment {
                            p1: Point { x: p1.x, y: f1 as i32 },
                            p2: Point { x: p2.x, y: f2 as i32 },
                        },
                    );
                },
                _ => {
                    proof {
                        lemma_segments_prefix(self.points@, h, i as int);
                        let rest = self.points@.skip(i as int);
                        assert(rest[0] == self.points@[i as int]);
                        assert(rest[1] == self.points@[i + 1]);
                        assert(spec_segments(rest, h) == Ok::<Seq<Segment>, ChartError>(
                            Seq::empty(),
                        ));
                        assert(segments@ =~= Seq::new(
                            i as nat,
                            |k: int| spec_seg(self.points@, k, h),
                        ));
                        assert(Seq::new(i as nat, |k: int| spec_seg(self.points@, k, h))
                            + Seq::<Segment>::empty() =~= segments@);
                    }
                    return Ok(ChartPlan { x_axis: x_geometry, y_axis: y_geometry, segments });
                },
            }
            i = i + 1;
        }
        proof {
            lemma_segments_prefix(self.points@, h, i as int);
            let rest = self.points@.skip(i as int);
            assert(rest.len() < 2);
            assert(segments@ =~= Seq::new(i as nat, |k: int| spec_seg(self.points@, k, h)));
            assert(Seq::new(i as nat, |k: int| spec_seg(self.points@, k, h))
                + Seq::<Segment>::empty() =~= segments@);
        }
        Ok(ChartPlan { x_axis: x_geometry, y_axis: y_geometry, segments })
    }
}

} // verus!
