//! A small charting layer for pixel displays.
//!
//! The crate computes chart geometry: it maps data points from a caller's
//! domain ranges into display pixel coordinates, positions a horizontal and
//! a vertical axis so they share one on-screen origin, and keeps a
//! fixed-capacity rolling window of the most recent samples. Painting the
//! resulting lines, arrowheads and markers is left to a drawing surface
//! outside this crate; the functions here only produce the coordinates.

use vstd::arithmetic::div_mod::{lemma_div_multiples_vanish, lemma_div_of0};
use vstd::prelude::*;

pub mod axis;
pub mod buffer;
pub mod font;
pub mod geometry;
pub mod line;

use crate::geometry::{fits_i32, ChartError, Point, Size};

verus! {

/// Division that truncates toward zero, as the `/` operator of the
/// executable code does; `/` on `int` rounds toward negative infinity
/// instead, so the distinction matters when the numerator is negative.
pub open spec fn trunc_div(a: int, b: int) -> int
    recommends
        b != 0,
{
    if a >= 0 {
        a / b
    } else {
        -((-a) / b)
    }
}

/// The linear interpolation that `scale_value` computes: the position of
/// `value` inside `[old_min, old_max]`, transported onto `[min, max]` with
/// truncating integer division.
pub open spec fn spec_scale_value(value: int, old_min: int, old_max: int, min: int, max: int) -> int
    recommends
        old_min < old_max,
{
    trunc_div((value - old_min) * (max - min), old_max - old_min) + min
}

/// Maps `value` from the range `[old_min, old_max]` onto the range
/// `[min, max]` by linear interpolation with truncating division.
///
/// The value must lie inside the old range and the old range must not be
/// degenerate; fractional positions are truncated toward zero, not rounded.
pub fn scale_value(value: i32, old_min: i32, old_max: i32, min: i32, max: i32) -> (r: i32)
    requires
        old_min <= value <= old_max,
        old_min < old_max,
        fits_i32(spec_scale_value(value as int, old_min as int, old_max as int, min as int, max as int)),
    ensures
        r as int == spec_scale_value(value as int, old_min as int, old_max as int, min as int, max as int),
{
    let a: i128 = value as i128 - old_min as i128;
    let b: i128 = max as i128 - min as i128;
    proof {
        assert(-0x10000000000000000 < a * b < 0x10000000000000000) by (nonlinear_arith)
            requires
                0 <= a < 0x100000000 && -0x100000000 < b < 0x100000000,
        ;
    }
    let num: i128 = a * b;
    let den: i128 = old_max as i128 - old_min as i128;
    let q: i128 = num / den;
    proof {
        let n = num as int;
        let d = den as int;
        assert(q == trunc_div(n, d)) by {
            if n >= 0 {
                assert(0 <= n / d <= n) by (nonlinear_arith)
                    requires
                        n >= 0 && d >= 1,
                ;
            } else {
                assert(0 <= (-n) / d <= -n) by (nonlinear_arith)
                    requires
                        n < 0 && d >= 1,
                ;
            }
        };
    }
    let r: i128 = q + min as i128;
    r as i32
}

/// The outcome of scaling with every precondition checked instead of
/// demanded: the value must lie inside the old range, the old range must
/// not be degenerate, and the interpolated result must fit the 32-bit
/// pixel space.
pub open spec fn spec_try_scale_value(
    value: int,
    old_min: int,
    old_max: int,
    min: int,
    max: int,
) -> Result<i32, ChartError> {
    if !(old_min <= value <= old_max) {
        Err(ChartError::ValueOutOfRange)
    } else if !(old_min < old_max) {
        Err(ChartError::DegenerateRange)
    } else if !fits_i32(spec_scale_value(value, old_min, old_max, min, max)) {
        Err(ChartError::OutOfBounds)
    } else {
        Ok(spec_scale_value(value, old_min, old_max, min, max) as i32)
    }
}

/// `scale_value` with its preconditions tested rather than required: an
/// out-of-range value, a degenerate old range, or a result outside the
/// 32-bit pixel space is reported as the matching error instead of being
/// a caller obligation.
pub fn try_scale_value(value: i32, old_min: i32, old_max: i32, min: i32, max: i32) -> (r: Result<
    i32,
    ChartError,
>)
    ensures
        r == spec_try_scale_value(value as int, old_min as int, old_max as int, min as int, max as int),
{
    if !(old_min <= value && value <= old_max) {
        return Err(ChartError::ValueOutOfRange);
    }
    if !(old_min < old_max) {
        return Err(ChartError::DegenerateRange);
    }
    let a: i128 = value as i128 - old_min as i128;
    let b: i128 = max as i128 - min as i128;
    proof {
        assert(-0x10000000000000000 < a * b < 0x10000000000000000) by (nonlinear_arith)
            requires
                0 <= a < 0x100000000 && -0x100000000 < b < 0x100000000,
        ;
    }
    let num: i128 = a * b;
    let den: i128 = old_max as i128 - old_min as i128;
    let q: i128 = num / den;
    proof {
        let n = num as int;
        let d = den as int;
        assert(q == trunc_div(n, d)) by {
            if n >= 0 {
                assert(0 <= n / d <= n) by (nonlinear_arith)
                    requires
                        n >= 0 && d >= 1,
                ;
            } else {
                assert(0 <= (-n) / d <= -n) by (nonlinear_arith)
                    requires
                        n < 0 && d >= 1,
                ;
            }
        };
    }
    let sum: i128 = q + min as i128;
    if i32::MIN as i128 <= sum && sum <= i32::MAX as i128 {
        Ok(sum as i32)
    } else {
        Err(ChartError::OutOfBounds)
    }
}

/// Law: scaling maps the endpoints of the old range exactly onto the
/// endpoints of the new range — `old_min` lands on `min` and `old_max`
/// lands on `max`, with no truncation loss.
pub proof fn lemma_scale_value_endpoints(old_min: int, old_max: int, min: int, max: int)
    requires
        old_min < old_max,
    ensures
        spec_scale_value(old_min, old_min, old_max, min, max) == min,
        spec_scale_value(old_max, old_min, old_max, min, max) == max,
{
    let d = old_max - old_min;
    let nr = max - min;
    lemma_div_of0(d);
    assert(spec_scale_value(old_min, old_min, old_max, min, max) == min);
    assert(d * nr >= 0 <==> nr >= 0) by (nonlinear_arith)
        requires
            d > 0,
    ;
    if nr >= 0 {
        lemma_div_multiples_vanish(nr, d);
    } else {
        lemma_div_multiples_vanish(-nr, d);
        assert(-(d * nr) == d * (-nr)) by (nonlinear_arith);
    }
}

/// The display-space image of a domain point: x transported onto
/// `[origin.x, width]`, y transported onto `[height - origin.y, height]`.
/// The y target range reflects that display pixel coordinates grow
/// downward while domain y grows upward.
pub open spec fn spec_scale_point(
    p: Point,
    display_size: Size,
    origin: Point,
    x_min: int,
    x_max: int,
    y_min: int,
    y_max: int,
) -> (int, int) {
    (
        spec_scale_value(p.x as int, x_min, x_max, origin.x as int, display_size.width as int),
        spec_scale_value(
            p.y as int,
            y_min,
            y_max,
            display_size.height - origin.y,
            display_size.height as int,
        ),
    )
}

/// Maps a domain point into display pixel space: two independent
/// `scale_value` applications, one per coordinate, against the display
/// size and the chart origin.
pub fn scale_point(
    p: Point,
    display_size: &Size,
    origin: &Point,
    x_min: i32,
    x_max: i32,
    y_min: i32,
    y_max: i32,
) -> (r: Point)
    requires
        x_min <= p.x <= x_max,
        x_min < x_max,
        y_min <= p.y <= y_max,
        y_min < y_max,
        display_size.width <= i32::MAX,
        display_size.height <= i32::MAX,
        fits_i32(display_size.height - origin.y),
        fits_i32(
            spec_scale_point(p, *display_size, *origin, x_min as int, x_max as int, y_min as int, y_max as int).0,
        ),
        fits_i32(
            spec_scale_point(p, *display_size, *origin, x_min as int, x_max as int, y_min as int, y_max as int).1,
        ),
    ensures
        ({
            let s = spec_scale_point(
                p,
                *display_size,
                *origin,
                x_min as int,
                x_max as int,
                y_min as int,
                y_max as int,
            );
            r.x == s.0 && r.y == s.1
        }),
{
    let new_x = scale_value(p.x, x_min, x_max, origin.x, display_size.width as i32);
    let new_y = scale_value(
        p.y,
        y_min,
        y_max,
        display_size.height as i32 - origin.y,
        display_size.height as i32,
    );
    Point { x: new_x, y: new_y }
}

} // verus!
