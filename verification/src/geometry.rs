//! Plain geometric values that the charting logic works on.
//!
//! A `Point` is either in domain space (data units) or in display space
//! (pixel coordinates, origin top-left, y growing downward); the two are
//! never mixed without an explicit scaling step.

use vstd::prelude::*;

verus! {

/// A 2D point, in domain space or display space depending on context.
#[derive(Clone, Copy, Debug, PartialEq, Eq, Structural)]
pub struct Point {
    pub x: i32,
    pub y: i32,
}

impl Point {
    pub fn new(x: i32, y: i32) -> (p: Point)
        ensures
            p == (Point { x, y }),
    {
        Point { x, y }
    }
}

/// The bounding dimensions of a display surface, in pixels.
#[derive(Clone, Copy, Debug, PartialEq, Eq, Structural)]
pub struct Size {
    pub width: u32,
    pub height: u32,
}

impl Size {
    pub fn new(width: u32, height: u32) -> (s: Size)
        ensures
            s == (Size { width, height }),
    {
        Size { width, height }
    }
}

/// A filled 3-point triangle, used for axis arrowheads.
#[derive(Clone, Copy, Debug, PartialEq, Eq, Structural)]
pub struct Triangle {
    pub p1: Point,
    pub p2: Point,
    pub p3: Point,
}

/// Every way an operation of this library can refuse to produce geometry.
///
/// The library never panics: states the underlying design left unspecified
/// (a degenerate range, a sample outside its axis range, pixel coordinates
/// that do not fit a 32-bit signed value, an invisible vertical axis, a
/// legend the font cannot measure) are reported as explicit errors.
#[derive(Clone, Copy, Debug, PartialEq, Eq, Structural)]
pub enum ChartError {
    /// An axis handed to the calibrator does not report the direction of
    /// its intended role.
    DirectionMismatch,
    /// The legend font lacks a glyph for this character, so the legend
    /// could not be measured.
    GlyphNotFound(char),
    /// A legend label longer than the measurement accepts.
    LegendTooLong,
    /// Drawing an invisible vertical axis is an unsupported state.
    InvisibleVerticalAxis,
    /// A scaling range has `min >= max`, so the interpolation divisor
    /// would be zero or negative.
    DegenerateRange,
    /// A sample lies outside the axis range it is scaled from.
    ValueOutOfRange,
    /// A computed pixel coordinate does not fit in a 32-bit signed value.
    OutOfBounds,
}

/// Does a mathematical coordinate fit the 32-bit pixel space?
pub open spec fn fits_i32(v: int) -> bool {
    i32::MIN <= v <= i32::MAX
}

} // verus!
