//! Axes: range bounds, direction, styling, and the geometry of drawing.
//!
//! An axis knows where on a display surface its line begins — accounting
//! for an optional legend label — and which line, arrowhead and legend
//! anchor a drawing surface should paint for it. A calibration pass moves
//! one horizontal and one vertical axis so both start from the same
//! on-screen origin point.
//!
//! Policy for states the underlying design left open: a failed legend
//! measurement and an invisible vertical axis are reported as explicit
//! errors; a legend measurement that returns no geometry leaves the start
//! point unadjusted; a start point or arrowhead outside the 32-bit pixel
//! space is an error rather than a silently wrapped coordinate.

use vstd::arithmetic::div_mod::{lemma_div_nonincreasing, lemma_div_pos_is_pos};
use vstd::prelude::*;
use vstd::string::StrSliceExecFns;

use crate::font::{
    legend_measure, measure_legend, LegendRect, MAX_LEGEND_ANCHOR, MAX_LEGEND_CHARS,
};
use crate::geometry::{fits_i32, ChartError, Point, Size, Triangle};

verus! {

/// The role of an axis on the display.
#[derive(Clone, Copy, Debug, PartialEq, Eq, Structural)]
pub enum Direction {
    Horizontal,
    Vertical,
}

/// An axis: a value range, a direction, visual styling, and the pixel
/// offset of its origin from the display's bottom-left corner.
#[derive(Debug)]
pub struct Axis<C> {
    pub max: i32,
    pub min: i32,
    pub direction: Direction,
    pub visible: bool,
    pub color: C,
    pub line_width: u32,
    /// In pixel coordinates of the display.
    pub starting_point_offset: Point,
    pub show_legend: bool,
    pub legend: String,
}

/// Named optional settings for constructing an `Axis`; every `None` falls
/// back to a documented default.
#[derive(Debug)]
pub struct AxisConfig<C> {
    /// Default 100.
    pub max: Option<i32>,
    /// Default 0.
    pub min: Option<i32>,
    /// Default `Direction::Horizontal`.
    pub direction: Option<Direction>,
    /// Default true.
    pub visible: Option<bool>,
    /// Default is the color type's default value.
    pub color: Option<C>,
    /// Default 2.
    pub line_width: Option<u32>,
    /// Default (3, 3).
    pub starting_point_offset: Option<Point>,
    /// Default false.
    pub show_legend: Option<bool>,
    /// Default "x".
    pub legend: Option<String>,
}

impl<C> Default for AxisConfig<C> {
    /// A configuration with every option left to its default.
    fn default() -> (c: AxisConfig<C>)
        ensures
            c.max is None && c.min is None && c.direction is None && c.visible is None,
            c.color is None && c.line_width is None && c.starting_point_offset is None,
            c.show_legend is None && c.legend is None,
    {
        AxisConfig {
            max: None,
            min: None,
            direction: None,
            visible: None,
            color: None,
            line_width: None,
            starting_point_offset: None,
            show_legend: None,
            legend: None,
        }
    }
}

/// Do the fields of `a` hold the documented defaults for an axis of the
/// given direction? The color is not constrained: its default is whatever
/// the color type declares.
pub open spec fn spec_is_default_axis<C>(a: Axis<C>, direction: Direction) -> bool {
    a.max == 100 && a.min == 0 && a.direction == direction && a.visible == true
        && a.line_width == 2 && a.starting_point_offset == (Point { x: 3, y: 3 })
        && a.show_legend == false && a.legend@ == "x"@
}

impl<C: Default> Axis<C> {
    /// Builds an axis from a configuration, filling every unset option
    /// with its documented default.
    pub fn from_config(config: AxisConfig<C>) -> (a: Axis<C>)
        ensures
            a.max == (match config.max { Some(v) => v, None => 100 }),
            a.min == (match config.min { Some(v) => v, None => 0 }),
            a.direction == (match config.direction { Some(v) => v, None => Direction::Horizontal }),
            a.visible == (match config.visible { Some(v) => v, None => true }),
            config.color is Some ==> a.color == config.color->0,
            a.line_width == (match config.line_width { Some(v) => v, None => 2 }),
            a.starting_point_offset == (match config.starting_point_offset {
                Some(v) => v,
                None => Point { x: 3, y: 3 },
            }),
            a.show_legend == (match config.show_legend { Some(v) => v, None => false }),
            a.legend@ == (match config.legend { Some(v) => v@, None => "x"@ }),
    {
        Axis {
            max: match config.max { Some(v) => v, None => 100 },
            min: match config.min { Some(v) => v, None => 0 },
            direction: match config.direction { Some(v) => v, None => Direction::Horizontal },
            visible: match config.visible { Some(v) => v, None => true },
            color: match config.color { Some(v) => v, None => C::default() },
            line_width: match config.line_width { Some(v) => v, None => 2 },
            starting_point_offset: match config.starting_point_offset {
                Some(v) => v,
                None => Point { x: 3, y: 3 },
            },
            show_legend: match config.show_legend { Some(v) => v, None => false },
            legend: match config.legend { Some(v) => v, None => String::from_str("x") },
        }
    }

    /// The default horizontal axis: every option at its default.
    pub fn default_x_axis() -> (a: Axis<C>)
        ensures
            spec_is_default_axis(a, Direction::Horizontal),
    {
        Axis::from_config(AxisConfig::default())
    }

    /// The default vertical axis: every option at its default except the
    /// direction.
    pub fn default_y_axis() -> (a: Axis<C>)
        ensures
            spec_is_default_axis(a, Direction::Vertical),
    {
        let mut config = AxisConfig::default();
        config.direction = Some(Direction::Vertical);
        Axis::from_config(config)
    }
}

/// Are `a` and `b` equal in every field except that `a`'s origin offset
/// is `off`?
pub open spec fn same_but_offset<C>(a: Axis<C>, b: Axis<C>, off: Point) -> bool {
    a.max == b.max && a.min == b.min && a.direction == b.direction && a.visible == b.visible
        && a.color == b.color && a.line_width == b.line_width && a.show_legend == b.show_legend
        && a.legend == b.legend && a.starting_point_offset == off
}

/// The display point at which legend text is anchored: bottom-center of
/// the display for a horizontal axis, center-left for a vertical one.
pub open spec fn spec_legend_anchor(direction: Direction, display: Size) -> (int, int) {
    let dx = (if display.width >= 1 { display.width as int } else { 1 }) - 1;
    let dy = (if display.height >= 1 { display.height as int } else { 1 }) - 1;
    match direction {
        Direction::Horizontal => (dx / 2, dy),
        Direction::Vertical => (0, dy / 2),
    }
}

impl<C> Axis<C> {
    /// The start point before any legend adjustment: the origin offset,
    /// with its y measured up from the bottom of the display.
    pub open spec fn spec_raw_start(&self, display: Size) -> (int, int) {
        (
            self.starting_point_offset.x as int,
            display.height - self.starting_point_offset.y,
        )
    }

    /// Where the axis line begins, as mathematical coordinates: the raw
    /// start point, pulled up (horizontal) or pushed right (vertical) to
    /// clear the legend label when one is shown. With a legend, fails
    /// when the label is longer than the measurement accepts, when the
    /// display is too large to anchor the label within the measurement's
    /// coordinate bounds, or when the legend font lacks a glyph of the
    /// legend text.
    pub open spec fn spec_start_point(&self, display: Size) -> Result<(int, int), ChartError> {
        let raw = self.spec_raw_start(display);
        if self.show_legend {
            if self.legend@.len() > MAX_LEGEND_CHARS {
                Err(ChartError::LegendTooLong)
            } else if !(display.width <= MAX_LEGEND_ANCHOR && display.height
                <= MAX_LEGEND_ANCHOR) {
                Err(ChartError::OutOfBounds)
            } else {
                let anchor = spec_legend_anchor(self.direction, display);
                match legend_measure(
                    self.legend@,
                    anchor.0,
                    anchor.1,
                    self.direction == Direction::Horizontal,
                ) {
                    Err(c) => Err(ChartError::GlyphNotFound(c)),
                    Ok(None) => Ok(raw),
                    Ok(Some(r)) => match self.direction {
                        Direction::Horizontal => Ok(
                            (
                                raw.0,
                                raw.1 - ((if r.y >= raw.1 {
                                    r.y - raw.1
                                } else {
                                    raw.1 - r.y
                                }) + self.line_width + 1),
                            ),
                        ),
                        Direction::Vertical => Ok((raw.0 + r.width, raw.1)),
                    },
                }
            }
        } else {
            Ok(raw)
        }
    }

    /// Computes where on the display the axis line begins, accounting for
    /// the legend label's measured footprint when the legend is shown.
    pub fn calculate_starting_coordinates(&self, display: &Size) -> (r: Result<Point, ChartError>)
        requires
            display.width <= i32::MAX,
            display.height <= i32::MAX,
        ensures
            match self.spec_start_point(*display) {
                Ok(p) => if fits_i32(p.0) && fits_i32(p.1) {
                    r == Ok::<Point, ChartError>(Point { x: p.0 as i32, y: p.1 as i32 })
                } else {
                    r == Err::<Point, ChartError>(ChartError::OutOfBounds)
                },
                Err(e) => r == Err::<Point, ChartError>(e),
            },
    {
        let raw_x: i64 = self.starting_point_offset.x as i64;
        let raw_y: i64 = display.height as i64 - self.starting_point_offset.y as i64;
        let mut x: i64 = raw_x;
        let mut y: i64 = raw_y;
        if self.show_legend {
            if self.legend.as_str().unicode_len() > MAX_LEGEND_CHARS {
                return Err(ChartError::LegendTooLong);
            }
            if !(display.width <= MAX_LEGEND_ANCHOR as u32 && display.height
                <= MAX_LEGEND_ANCHOR as u32) {
                return Err(ChartError::OutOfBounds);
            }
            let horizontal = self.direction == Direction::Horizontal;
            let anchor = legend_anchor(self.direction, display);
            proof {
                let dx = (if display.width >= 1 { display.width as int } else { 1 }) - 1;
                let dy = (if display.height >= 1 { display.height as int } else { 1 }) - 1;
                lemma_div_pos_is_pos(dx, 2);
                lemma_div_nonincreasing(dx, 2);
                lemma_div_pos_is_pos(dy, 2);
                lemma_div_nonincreasing(dy, 2);
            }
            match measure_legend(self.legend.as_str(), anchor.x, anchor.y, horizontal) {
                Err(c) => {
                    return Err(ChartError::GlyphNotFound(c));
                },
                Ok(None) => {},
                Ok(Some(rect)) => {
                    if horizontal {
                        let diff: i64 = if rect.y as i64 >= raw_y {
                            rect.y as i64 - raw_y
                        } else {
                            raw_y - rect.y as i64
                        };
                        y = raw_y - (diff + self.line_width as i64 + 1);
                    } else {
                        x = raw_x + rect.width as i64;
                    }
                },
            }
        }
        if i32::MIN as i64 <= x && x <= i32::MAX as i64 && i32::MIN as i64 <= y && y
            <= i32::MAX as i64 {
            Ok(Point { x: x as i32, y: y as i32 })
        } else {
            Err(ChartError::OutOfBounds)
        }
    }

    /// Replaces the axis's origin offset, leaving every other field as it
    /// was.
    pub fn update_starting_offset(&mut self, new_offset: Point)
        ensures
            same_but_offset(*final(self), *old(self), new_offset),
    {
        self.starting_point_offset = new_offset;
    }
}

/// Where the legend text of an axis of this direction is anchored on the
/// display.
fn legend_anchor(direction: Direction, display: &Size) -> (p: Point)
    requires
        display.width <= i32::MAX,
        display.height <= i32::MAX,
    ensures
        p.x == spec_legend_anchor(direction, *display).0,
        p.y == spec_legend_anchor(direction, *display).1,
{
    let dx: i32 = if display.width >= 1 { (display.width - 1) as i32 } else { 0 };
    let dy: i32 = if display.height >= 1 { (display.height - 1) as i32 } else { 0 };
    match direction {
        Direction::Horizontal => Point { x: dx / 2, y: dy },
        Direction::Vertical => Point { x: 0, y: dy / 2 },
    }
}

/// Everything a drawing surface needs to paint one axis: the stroked line
/// from `start` to `end`, the filled arrowhead at its tip, and — when the
/// axis shows a legend — the anchor point at which the legend text is
/// rendered.
#[derive(Clone, Copy, Debug, PartialEq, Eq, Structural)]
pub struct AxisGeometry {
    pub start: Point,
    pub end: Point,
    pub arrow: Triangle,
    pub legend_anchor: Option<Point>,
}

/// Reserved pixels at the tip of an axis line, enough for the arrowhead.
pub open spec fn spec_end_padding() -> int {
    8
}

/// Where the axis line ends: at the right display edge minus the
/// arrowhead padding for a horizontal axis, at the arrowhead padding
/// below the top edge for a vertical one.
pub open spec fn spec_end_point(direction: Direction, display: Size, start: (int, int)) -> (
    int,
    int,
) {
    match direction {
        Direction::Horizontal => (display.width - spec_end_padding(), start.1),
        Direction::Vertical => (start.0, spec_end_padding()),
    }
}

impl<C> Axis<C> {
    /// The arrowhead of a horizontal axis: a triangle pointing right from
    /// the line's end point, spread two pixels down and three up, tip
    /// five pixels forward.
    pub fn x_triangle(&self, end_point: &Point) -> (t: Triangle)
        requires
            end_point.y + 2 <= i32::MAX,
            i32::MIN <= end_point.y - 3,
            end_point.x + 5 <= i32::MAX,
        ensures
            t.p1 == (Point { x: end_point.x, y: (end_point.y + 2) as i32 }),
            t.p2 == (Point { x: end_point.x, y: (end_point.y - 3) as i32 }),
            t.p3 == (Point { x: (end_point.x + 5) as i32, y: end_point.y }),
    {
        let triangle_point1 = Point { x: end_point.x, y: end_point.y + 2 };
        let triangle_point2 = Point { x: end_point.x, y: end_point.y - 3 };
        let triangle_point3 = Point { x: end_point.x + 5, y: end_point.y };
        Triangle { p1: triangle_point1, p2: triangle_point2, p3: triangle_point3 }
    }

    /// The arrowhead of a vertical axis: a triangle pointing up from the
    /// line's end point, spread two pixels right and three left, tip five
    /// pixels upward.
    pub fn y_triangle(&self, end_point: Point) -> (t: Triangle)
        requires
            end_point.x + 2 <= i32::MAX,
            i32::MIN <= end_point.x - 3,
            i32::MIN <= end_point.y - 5,
        ensures
            t.p1 == (Point { x: (end_point.x + 2) as i32, y: end_point.y }),
            t.p2 == (Point { x: (end_point.x - 3) as i32, y: end_point.y }),
            t.p3 == (Point { x: end_point.x, y: (end_point.y - 5) as i32 }),
    {
        let triangle_point1 = Point { x: end_point.x + 2, y: end_point.y };
        let triangle_point2 = Point { x: end_point.x - 3, y: end_point.y };
        let triangle_point3 = Point { x: end_point.x, y: end_point.y - 5 };
        Triangle { p1: triangle_point1, p2: triangle_point2, p3: triangle_point3 }
    }

    /// Does the arrowhead around this end point stay inside the 32-bit
    /// pixel space? Only the coordinates that the offsets can push past
    /// an edge are constrained; the others cannot leave the space when
    /// the end point itself fits.
    pub open spec fn spec_arrow_fits(direction: Direction, end: (int, int)) -> bool {
        match direction {
            Direction::Horizontal => end.1 + 2 <= i32::MAX && i32::MIN <= end.1 - 3,
            Direction::Vertical => end.0 + 2 <= i32::MAX && i32::MIN <= end.0 - 3,
        }
    }

    /// The geometry that drawing this axis paints, as mathematical
    /// coordinates, or the error that drawing reports. `Ok(None)` means
    /// an invisible horizontal axis: a no-op.
    pub open spec fn spec_draw_geometry(&self, display: Size) -> Result<
        Option<((int, int), (int, int))>,
        ChartError,
    > {
        if !self.visible {
            match self.direction {
                Direction::Horizontal => Ok(None),
                Direction::Vertical => Err(ChartError::InvisibleVerticalAxis),
            }
        } else {
            match self.spec_start_point(display) {
                Err(e) => Err(e),
                Ok(s) => if !(fits_i32(s.0) && fits_i32(s.1)) {
                    Err(ChartError::OutOfBounds)
                } else if !Self::spec_arrow_fits(self.direction, spec_end_point(self.direction, display, s)) {
                    Err(ChartError::OutOfBounds)
                } else {
                    Ok(Some((s, spec_end_point(self.direction, display, s))))
                },
            }
        }
    }

    /// Computes the line, arrowhead and legend anchor that a drawing
    /// surface should paint for this axis. An invisible horizontal axis
    /// yields `Ok(None)`: nothing to paint; an invisible vertical axis is
    /// an unsupported state and an error.
    pub fn draw_geometry(&self, display: &Size) -> (r: Result<Option<AxisGeometry>, ChartError>)
        requires
            display.width <= i32::MAX,
            display.height <= i32::MAX,
        ensures
            geometry_matches(*self, *display, r),
    {
        let end_padding: i32 = 8;

        if !self.visible {
            return match self.direction {
                Direction::Horizontal => Ok(None),
                Direction::Vertical => Err(ChartError::InvisibleVerticalAxis),
            };
        }

        let start_point = match self.calculate_starting_coordinates(display) {
            Ok(p) => p,
            Err(e) => {
                return Err(e);
            },
        };

        match self.direction {
            Direction::Horizontal => {
                if !(start_point.y <= i32::MAX - 2 && i32::MIN + 3 <= start_point.y) {
                    return Err(ChartError::OutOfBounds);
                }
                let end_point = Point { x: display.width as i32 - end_padding, y: start_point.y };
                let arrow = self.x_triangle(&end_point);
                Ok(Some(AxisGeometry {
                    start: start_point,
                    end: end_point,
                    arrow,
                    legend_anchor: if self.show_legend {
                        Some(legend_anchor(self.direction, display))
                    } else {
                        None
                    },
                }))
            },
            Direction::Vertical => {
                if !(start_point.x <= i32::MAX - 2 && i32::MIN + 3 <= start_point.x) {
                    return Err(ChartError::OutOfBounds);
                }
                let end_point = Point { x: start_point.x, y: end_padding };
                let arrow = self.y_triangle(end_point);
                Ok(Some(AxisGeometry {
                    start: start_point,
                    end: end_point,
                    arrow,
                    legend_anchor: if self.show_legend {
                        Some(legend_anchor(self.direction, display))
                    } else {
                        None
                    },
                }))
            },
        }
    }
}

/// Does `r` hold exactly the drawing geometry of axis `a` on a display
/// of this size: the start and end of the line, the arrowhead offset
/// from the end point by the fixed pixel deltas, and the legend anchor
/// when a legend is shown — or the error that the geometry computation
/// reports?
pub open spec fn geometry_matches<C>(
    a: Axis<C>,
    display: Size,
    r: Result<Option<AxisGeometry>, ChartError>,
) -> bool {
    match a.spec_draw_geometry(display) {
        Err(e) => r == Err::<Option<AxisGeometry>, ChartError>(e),
        Ok(None) => r == Ok::<Option<AxisGeometry>, ChartError>(None),
        Ok(Some((s, e))) => {
            let anchor = spec_legend_anchor(a.direction, display);
            r matches Ok(Some(g)) && g.start == (Point { x: s.0 as i32, y: s.1 as i32 })
                && g.end == (Point { x: e.0 as i32, y: e.1 as i32 }) && (match a.direction {
                Direction::Horizontal => g.arrow.p1 == (Point {
                    x: e.0 as i32,
                    y: (e.1 + 2) as i32,
                }) && g.arrow.p2 == (Point { x: e.0 as i32, y: (e.1 - 3) as i32 })
                    && g.arrow.p3 == (Point { x: (e.0 + 5) as i32, y: e.1 as i32 }),
                Direction::Vertical => g.arrow.p1 == (Point {
                    x: (e.0 + 2) as i32,
                    y: e.1 as i32,
                }) && g.arrow.p2 == (Point { x: (e.0 - 3) as i32, y: e.1 as i32 })
                    && g.arrow.p3 == (Point { x: e.0 as i32, y: (e.1 - 5) as i32 }),
            }) && g.legend_anchor == (if a.show_legend {
                Some(Point { x: anchor.0 as i32, y: anchor.1 as i32 })
            } else {
                None::<Point>
            })
        },
    }
}

/// Helper marker for keeping one horizontal and one vertical axis with a
/// shared starting point; the pairing itself is done by
/// `calibrate_starting_points`.
pub struct AxisPair {}

/// Reconciles one horizontal and one vertical axis so both start from the
/// same on-screen origin: whichever axis is not already aligned has its
/// offset increased by the absolute difference of the two start points,
/// in exactly one pass. Fails — mutating neither axis — when either
/// axis's direction does not match its role, when a legend cannot be
/// measured, or when a start point or adjusted offset leaves the 32-bit
/// pixel space.
pub fn calibrate_starting_points<C1, C2>(
    horizontal: &mut Axis<C1>,
    vertical: &mut Axis<C2>,
    display: &Size,
) -> (r: Result<(), ChartError>)
    requires
        display.width <= i32::MAX,
        display.height <= i32::MAX,
    ensures
        (old(horizontal).direction != Direction::Horizontal || old(vertical).direction
            != Direction::Vertical) ==> (r == Err::<(), ChartError>(ChartError::DirectionMismatch)
            && *final(horizontal) == *old(horizontal) && *final(vertical) == *old(vertical)),
        (old(horizontal).direction == Direction::Horizontal && old(vertical).direction
            == Direction::Vertical) ==> match old(horizontal).spec_start_point(*display) {
            Err(e) => r == Err::<(), ChartError>(e) && *final(horizontal) == *old(horizontal)
                && *final(vertical) == *old(vertical),
            Ok(hs) => if !(fits_i32(hs.0) && fits_i32(hs.1)) {
                r == Err::<(), ChartError>(ChartError::OutOfBounds)
                    && *final(horizontal) == *old(horizontal)
                    && *final(vertical) == *old(vertical)
            } else {
                match old(vertical).spec_start_point(*display) {
                    Err(e) => r == Err::<(), ChartError>(e)
                        && *final(horizontal) == *old(horizontal)
                        && *final(vertical) == *old(vertical),
                    Ok(vs) => if !(fits_i32(vs.0) && fits_i32(vs.1)) {
                        r == Err::<(), ChartError>(ChartError::OutOfBounds) && *final(horizontal)
                            == *old(horizontal) && *final(vertical) == *old(vertical)
                    } else {
                        let dy = if vs.1 >= hs.1 { vs.1 - hs.1 } else { hs.1 - vs.1 };
                        let dx = if vs.0 >= hs.0 { vs.0 - hs.0 } else { hs.0 - vs.0 };
                        let new_vy = old(vertical).starting_point_offset.y + dy;
                        let new_hx = old(horizontal).starting_point_offset.x + dx;
                        if fits_i32(new_vy) && fits_i32(new_hx) {
                            r == Ok::<(), ChartError>(()) && same_but_offset(
                                *final(horizontal),
                                *old(horizontal),
                                Point {
                                    x: new_hx as i32,
                                    y: old(horizontal).starting_point_offset.y,
                                },
                            ) && same_but_offset(
                                *final(vertical),
                                *old(vertical),
                                Point {
                                    x: old(vertical).starting_point_offset.x,
                                    y: new_vy as i32,
                                },
                            )
                        } else {
                            r == Err::<(), ChartError>(ChartError::OutOfBounds)
                                && *final(horizontal) == *old(horizontal)
                                && *final(vertical) == *old(vertical)
                        }
                    },
                }
            },
        },
{
    match horizontal.direction {
        Direction::Horizontal => {},
        Direction::Vertical => {
            return Err(ChartError::DirectionMismatch);
        },
    }
    match vertical.direction {
        Direction::Horizontal => {
            return Err(ChartError::DirectionMismatch);
        },
        Direction::Vertical => {},
    }

    let hor_s_point = match horizontal.calculate_starting_coordinates(display) {
        Ok(p) => p,
        Err(e) => {
            return Err(e);
        },
    };
    let ver_s_point = match vertical.calculate_starting_coordinates(display) {
        Ok(p) => p,
        Err(e) => {
            return Err(e);
        },
    };

    let dy: i64 = if ver_s_point.y >= hor_s_point.y {
        ver_s_point.y as i64 - hor_s_point.y as i64
    } else {
        hor_s_point.y as i64 - ver_s_point.y as i64
    };
    let dx: i64 = if ver_s_point.x >= hor_s_point.x {
        ver_s_point.x as i64 - hor_s_point.x as i64
    } else {
        hor_s_point.x as i64 - ver_s_point.x as i64
    };
    let new_vy: i64 = vertical.starting_point_offset.y as i64 + dy;
    let new_hx: i64 = horizontal.starting_point_offset.x as i64 + dx;
    if i32::MIN as i64 <= new_vy && new_vy <= i32::MAX as i64 && i32::MIN as i64 <= new_hx && new_hx
        <= i32::MAX as i64 {
        vertical.starting_point_offset.y = new_vy as i32;
        horizontal.starting_point_offset.x = new_hx as i32;
        Ok(())
    } else {
        Err(ChartError::OutOfBounds)
    }
}

/// Law: one calibration pass already aligns the axes. If calibration
/// adjusted the offsets of a well-directed pair whose vertical start lay
/// at or below-right of the horizontal start, then recomputing both start
/// points afterwards yields one shared origin — no second pass changes
/// anything.
pub proof fn lemma_single_pass_calibration<C1, C2>(
    h: Axis<C1>,
    v: Axis<C2>,
    h2: Axis<C1>,
    v2: Axis<C2>,
    display: Size,
    hs: (int, int),
    vs: (int, int),
)
    requires
        h.direction == Direction::Horizontal,
        v.direction == Direction::Vertical,
        h.spec_start_point(display) == Ok::<(int, int), ChartError>(hs),
        v.spec_start_point(display) == Ok::<(int, int), ChartError>(vs),
        vs.1 >= hs.1,
        vs.0 >= hs.0,
        fits_i32(h.starting_point_offset.x + (vs.0 - hs.0)),
        fits_i32(v.starting_point_offset.y + (vs.1 - hs.1)),
        same_but_offset(
            h2,
            h,
            Point {
                x: (h.starting_point_offset.x + (vs.0 - hs.0)) as i32,
                y: h.starting_point_offset.y,
            },
        ),
        same_but_offset(
            v2,
            v,
            Point {
                x: v.starting_point_offset.x,
                y: (v.starting_point_offset.y + (vs.1 - hs.1)) as i32,
            },
        ),
    ensures
        h2.spec_start_point(display) == Ok::<(int, int), ChartError>((vs.0, hs.1)),
        v2.spec_start_point(display) == Ok::<(int, int), ChartError>((vs.0, hs.1)),
{
    assert(h2.legend@ == h.legend@);
    assert(v2.legend@ == v.legend@);
}

/// Law, in its plainest form: for a well-directed, legend-free pair with
/// nonnegative y offsets whose horizontal start does not lie below or
/// right of the vertical start, the single calibration pass — which sets
/// both offsets to the shared corner `(v.x, h.y)` — makes the recomputed
/// starting points one and the same point. No iteration is needed.
pub proof fn lemma_single_pass_calibration_plain<C1, C2>(
    h: Axis<C1>,
    v: Axis<C2>,
    h2: Axis<C1>,
    v2: Axis<C2>,
    display: Size,
)
    requires
        h.direction == Direction::Horizontal,
        v.direction == Direction::Vertical,
        !h.show_legend,
        !v.show_legend,
        display.height <= i32::MAX,
        0 <= h.starting_point_offset.y,
        0 <= v.starting_point_offset.y,
        h.starting_point_offset.y >= v.starting_point_offset.y,
        v.starting_point_offset.x >= h.starting_point_offset.x,
        same_but_offset(
            h2,
            h,
            Point { x: v.starting_point_offset.x, y: h.starting_point_offset.y },
        ),
        same_but_offset(
            v2,
            v,
            Point { x: v.starting_point_offset.x, y: h.starting_point_offset.y },
        ),
    ensures
        h.spec_start_point(display) == Ok::<(int, int), ChartError>(
            (h.starting_point_offset.x as int, display.height - h.starting_point_offset.y),
        ),
        v.spec_start_point(display) == Ok::<(int, int), ChartError>(
            (v.starting_point_offset.x as int, display.height - v.starting_point_offset.y),
        ),
        h2.spec_start_point(display) == v2.spec_start_point(display),
        h2.spec_start_point(display) == Ok::<(int, int), ChartError>(
            (v.starting_point_offset.x as int, display.height - h.starting_point_offset.y),
        ),
{
}

} // verus!
