//! Legend text measurement.
//!
//! Axis legends are rendered in one fixed 4x6 pixel font. The geometry
//! computed by this crate only needs the bounding box that rendering a
//! legend would cover; measuring it is delegated to the font library and
//! trusted, under a name, since the box is a pure function of the text and
//! the anchor position.

use u8g2_fonts::fonts::u8g2_font_4x6_tf;
use u8g2_fonts::types::{HorizontalAlignment, VerticalPosition};
use u8g2_fonts::{FontRenderer, LookupError};
use vstd::prelude::*;

verus! {

/// The bounding box that rendering a legend text covers, in display
/// pixel coordinates.
#[derive(Clone, Copy, Debug, PartialEq, Eq, Structural)]
pub struct LegendRect {
    pub x: i32,
    pub y: i32,
    pub width: u32,
    pub height: u32,
}

/// The longest legend the measurement accepts, in characters. The font
/// library accumulates per-glyph advances and line counts in 32-bit
/// values; this cap keeps those sums far below their limits. No label on
/// a 32-bit pixel surface is wider.
pub const MAX_LEGEND_CHARS: usize = 4096;

/// The largest anchor coordinate magnitude the measurement accepts; it
/// leaves the font library's 32-bit position arithmetic ample headroom
/// above the text's own extent.
pub const MAX_LEGEND_ANCHOR: i32 = 0x40000000;

/// The bounding box that the fixed legend font produces for `text`
/// anchored at `(anchor_x, anchor_y)`: bottom-centered for a horizontal
/// axis, center-left for a vertical one. `Ok(None)` means the text has no
/// visible geometry; `Err(c)` names a character the font lacks. The box
/// depends on these arguments alone.
pub uninterp spec fn legend_measure(
    text: Seq<char>,
    anchor_x: int,
    anchor_y: int,
    horizontal: bool,
) -> Result<Option<LegendRect>, char>;

/// Relies on `u8g2_fonts::FontRenderer::get_rendered_dimensions_aligned`
/// with the `u8g2_font_4x6_tf` font: it returns the bounding box that
/// `render_aligned` with the same arguments would cover, a deterministic
/// function of the text and the anchor, and fails only with
/// `LookupError::GlyphNotFound`. The measurement sums glyph advances
/// (each an `i8`) and line heights in 32-bit accumulators anchored at
/// the given position; under the bounds required here every such sum
/// stays far inside the 32-bit range, so the call returns rather than
/// panicking.
#[verifier::external_body]
pub(crate) fn measure_legend(
    text: &str,
    anchor_x: i32,
    anchor_y: i32,
    horizontal: bool,
) -> (r: Result<Option<LegendRect>, char>)
    requires
        text@.len() <= MAX_LEGEND_CHARS,
        -MAX_LEGEND_ANCHOR <= anchor_x <= MAX_LEGEND_ANCHOR,
        -MAX_LEGEND_ANCHOR <= anchor_y <= MAX_LEGEND_ANCHOR,
    ensures
        r == legend_measure(text@, anchor_x as int, anchor_y as int, horizontal),
{
    let renderer = FontRenderer::new::<u8g2_font_4x6_tf>();
    let (vertical_pos, align) = if horizontal {
        (VerticalPosition::Bottom, HorizontalAlignment::Center)
    } else {
        (VerticalPosition::Center, HorizontalAlignment::Left)
    };
    let position = embedded_graphics::prelude::Point::new(anchor_x, anchor_y);
    match renderer.get_rendered_dimensions_aligned(text, position, vertical_pos, align) {
        Ok(Some(r)) => Ok(Some(
            LegendRect { x: r.top_left.x, y: r.top_left.y, width: r.size.width, height: r.size.height },
        )),
        Ok(None) => Ok(None),
        Err(LookupError::GlyphNotFound(c)) => Err(c),
    }
}

} // verus!
