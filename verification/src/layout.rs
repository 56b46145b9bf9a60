//! Layout geometry shared by the templates: the canvas dimensions, the
//! text draw commands a render hands back to its caller, and the title
//! wrapping decision.

use vstd::prelude::*;
use crate::color::Rgba;
use crate::fit::{check_width, DrawError};

verus! {

/// Width of the canvas every template composes on, in pixels.
pub const IMG_WIDTH: u32 = 800;

/// Height of the canvas every template composes on, in pixels.
pub const IMG_HEIGHT: u32 = 800;

/// One text draw command: the string, its top-left position, the pixel
/// height to rasterize it at, and its solid color. The core decides these;
/// the caller's rasterizer executes them in order after the panels are
/// composited.
#[derive(Clone, Debug)]
pub struct TextDraw {
    pub text: String,
    pub x: u32,
    pub y: u32,
    pub size: u32,
    pub color: Rgba,
}

/// The draw command `d` writes text `t` at `(x, y)` with the given pixel
/// height and color.
pub open spec fn text_draw_is(d: TextDraw, t: Seq<char>, x: int, y: int, size: int, color: Rgba) -> bool {
    &&& d.text@ == t
    &&& d.x == x
    &&& d.y == y
    &&& d.size == size
    &&& d.color == color
}

/// The four fixed layouts a caller can select.
#[derive(Clone, Copy, PartialEq, Eq, Structural, Debug)]
pub enum LayoutTemplate {
    Corner,
    Bottom,
    ChineseBanner,
    Light,
}

/// How a banner template renders its title: on one centered line, or cut
/// in two independently centered lines with the banner height doubled.
#[derive(Clone, Copy, PartialEq, Eq, Structural, Debug)]
pub enum TitlePlan {
    SingleLine { x: u32 },
    TwoLine { x1: u32, x2: u32 },
}

/// Decide how a banner template renders its title. `title_w` is the
/// measured width of the whole title at the template's title height;
/// `half1_w` and `half2_w` are the measured widths of the two halves the
/// title would be cut into at the fixed character boundary.
///
/// A title narrower than the canvas renders on a single line, centered
/// horizontally. A wider one is cut in two, and each half, validated
/// against the canvas width, is centered independently.
pub fn plan_title(title_w: u32, half1_w: u32, half2_w: u32) -> (r: Result<TitlePlan, DrawError>)
    ensures
        r is Ok <==> (title_w < IMG_WIDTH || (half1_w <= IMG_WIDTH && half2_w <= IMG_WIDTH)),
        title_w < IMG_WIDTH ==> (r matches Ok(p) && p matches TitlePlan::SingleLine { x } && x
            as int == (IMG_WIDTH - title_w as int) / 2),
        title_w >= IMG_WIDTH && half1_w <= IMG_WIDTH && half2_w <= IMG_WIDTH ==> (r matches Ok(p)
            && p matches TitlePlan::TwoLine { x1, x2 } && x1 as int == (IMG_WIDTH - half1_w as int)
            / 2 && x2 as int == (IMG_WIDTH - half2_w as int) / 2),
        title_w >= IMG_WIDTH && half1_w > IMG_WIDTH ==> (r matches Err(e) && e matches
            DrawError::WidthTooLong(w, l, c) && w == half1_w && l == IMG_WIDTH && c@ == "title"@),
        title_w >= IMG_WIDTH && half1_w <= IMG_WIDTH && half2_w > IMG_WIDTH ==> (r matches Err(e)
            && e matches DrawError::WidthTooLong(w, l, c) && w == half2_w && l == IMG_WIDTH && c@
            == "title"@),
{
    if title_w < IMG_WIDTH {
        return Ok(TitlePlan::SingleLine { x: (IMG_WIDTH - title_w) / 2 });
    }
    if let Err(e) = check_width(half1_w, IMG_WIDTH, "title") {
        return Err(e);
    }
    if let Err(e) = check_width(half2_w, IMG_WIDTH, "title") {
        return Err(e);
    }
    Ok(
        TitlePlan::TwoLine {
            x1: (IMG_WIDTH - half1_w) / 2,
            x2: (IMG_WIDTH - half2_w) / 2,
        },
    )
}

} // verus!
