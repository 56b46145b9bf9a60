//! The corner template: the title banner across the top, a left info
//! block with location and time in the bottom-left corner, and a right
//! info block in the bottom-right corner with the humidity and temperature
//! readings behind their icons and the two overview lines.

use vstd::prelude::*;
use crate::banner::{
    check_values, composite_title_banner, spec_banner_panel_color, spec_banner_text_color,
    spec_title_banner_pixels, title_texts, title_texts_are, title_ok, title_two_line, values_ok,
    BannerWidths, ICON_SIZE,
};
use crate::canvas::{overlay_pixels, uniform_pixels, Canvas};
use crate::color::Rgba;
use crate::fit::{check_width, DrawError};
use crate::layout::{plan_title, text_draw_is, TextDraw, TitlePlan, IMG_HEIGHT, IMG_WIDTH};
use crate::weather_info::{
    humd_text, spec_humd_text, spec_temp_text, temp_text, WeatherInfo,
};

verus! {

/// Width of the left info block.
pub const CORNER_LEFT_W: u32 = 260;

/// Height of the left info block.
pub const CORNER_LEFT_H: u32 = 120;

/// Vertical position of the left info block, flush with the bottom.
pub const CORNER_LEFT_Y: u32 = 680;

/// Width of the right info block.
pub const CORNER_RIGHT_W: u32 = 280;

/// Height of the right info block.
pub const CORNER_RIGHT_H: u32 = 260;

/// Horizontal position of the right info block, flush with the right edge.
pub const CORNER_RIGHT_X: u32 = 520;

/// Vertical position of the right info block.
pub const CORNER_RIGHT_Y: u32 = 520;

/// Horizontal padding inside the corner blocks.
pub const CORNER_PAD: u32 = 10;

/// Font pixel height of the corner blocks' text.
pub const CORNER_FONT: u32 = 45;

/// Row height inside the right block.
pub const CORNER_ROW_STEP: u32 = 60;

/// Widest text the left block can hold beside its padding.
pub const CORNER_LEFT_TEXT_LIMIT: u32 = 240;

/// Widest reading an icon row of the right block can hold.
pub const CORNER_ICON_TEXT_LIMIT: u32 = 200;

/// Widest overview line a plain row of the right block can hold.
pub const CORNER_TEXT_LIMIT: u32 = 260;

/// Every corner-block text fits its row.
pub open spec fn corner_fits(w: BannerWidths) -> bool {
    &&& w.location <= CORNER_LEFT_TEXT_LIMIT
    &&& w.time <= CORNER_LEFT_TEXT_LIMIT
    &&& w.humd <= CORNER_ICON_TEXT_LIMIT
    &&& w.temp <= CORNER_ICON_TEXT_LIMIT
    &&& w.overview <= CORNER_TEXT_LIMIT
    &&& w.overview2 <= CORNER_TEXT_LIMIT
}

/// Validate the six corner-block texts against their row limits, in the
/// order the rows are drawn.
pub fn check_corner(w: &BannerWidths) -> (r: Result<(), DrawError>)
    ensures
        r is Ok <==> corner_fits(*w),
        w.location > CORNER_LEFT_TEXT_LIMIT ==> (r matches Err(e) && e matches
            DrawError::WidthTooLong(m, l, c) && m == w.location && l == CORNER_LEFT_TEXT_LIMIT
            && c@ == "location"@),
        w.location <= CORNER_LEFT_TEXT_LIMIT && w.time > CORNER_LEFT_TEXT_LIMIT ==> (r matches Err(
            e,
        ) && e matches DrawError::WidthTooLong(m, l, c) && m == w.time && l
            == CORNER_LEFT_TEXT_LIMIT && c@ == "time"@),
        w.location <= CORNER_LEFT_TEXT_LIMIT && w.time <= CORNER_LEFT_TEXT_LIMIT && w.humd
            > CORNER_ICON_TEXT_LIMIT ==> (r matches Err(e) && e matches DrawError::WidthTooLong(
            m,
            l,
            c,
        ) && m == w.humd && l == CORNER_ICON_TEXT_LIMIT && c@ == "humidity"@),
        w.location <= CORNER_LEFT_TEXT_LIMIT && w.time <= CORNER_LEFT_TEXT_LIMIT && w.humd
            <= CORNER_ICON_TEXT_LIMIT && w.temp > CORNER_ICON_TEXT_LIMIT ==> (r matches Err(e)
            && e matches DrawError::WidthTooLong(m, l, c) && m == w.temp && l
            == CORNER_ICON_TEXT_LIMIT && c@ == "temperature"@),
        w.location <= CORNER_LEFT_TEXT_LIMIT && w.time <= CORNER_LEFT_TEXT_LIMIT && w.humd
            <= CORNER_ICON_TEXT_LIMIT && w.temp <= CORNER_ICON_TEXT_LIMIT && w.overview
            > CORNER_TEXT_LIMIT ==> (r matches Err(e) && e matches DrawError::WidthTooLong(
            m,
            l,
            c,
        ) && m == w.overview && l == CORNER_TEXT_LIMIT && c@ == "overview"@),
        w.location <= CORNER_LEFT_TEXT_LIMIT && w.time <= CORNER_LEFT_TEXT_LIMIT && w.humd
            <= CORNER_ICON_TEXT_LIMIT && w.temp <= CORNER_ICON_TEXT_LIMIT && w.overview
            <= CORNER_TEXT_LIMIT && w.overview2 > CORNER_TEXT_LIMIT ==> (r matches Err(e)
            && e matches DrawError::WidthTooLong(m, l, c) && m == w.overview2 && l
            == CORNER_TEXT_LIMIT && c@ == "overview2"@),
{
    if let Err(e) = check_width(w.location, CORNER_LEFT_TEXT_LIMIT, "location") {
        return Err(e);
    }
    if let Err(e) = check_width(w.time, CORNER_LEFT_TEXT_LIMIT, "time") {
        return Err(e);
    }
    if let Err(e) = check_width(w.humd, CORNER_ICON_TEXT_LIMIT, "humidity") {
        return Err(e);
    }
    if let Err(e) = check_width(w.temp, CORNER_ICON_TEXT_LIMIT, "temperature") {
        return Err(e);
    }
    if let Err(e) = check_width(w.overview, CORNER_TEXT_LIMIT, "overview") {
        return Err(e);
    }
    if let Err(e) = check_width(w.overview2, CORNER_TEXT_LIMIT, "overview2") {
        return Err(e);
    }
    Ok(())
}

/// The canvas after the two corner panels and the two icons are
/// composited over the title banner.
pub open spec fn spec_corner_pixels(base: Seq<Rgba>, water: Seq<Rgba>, thermo: Seq<Rgba>) -> Seq<
    Rgba,
> {
    let a = overlay_pixels(
        base,
        IMG_WIDTH as int,
        IMG_HEIGHT as int,
        uniform_pixels(
            CORNER_LEFT_W as int,
            CORNER_LEFT_H as int,
            spec_banner_panel_color(),
        ),
        CORNER_LEFT_W as int,
        CORNER_LEFT_H as int,
        0,
        CORNER_LEFT_Y as int,
    );
    let b = overlay_pixels(
        a,
        IMG_WIDTH as int,
        IMG_HEIGHT as int,
        uniform_pixels(
            CORNER_RIGHT_W as int,
            CORNER_RIGHT_H as int,
            spec_banner_panel_color(),
        ),
        CORNER_RIGHT_W as int,
        CORNER_RIGHT_H as int,
        CORNER_RIGHT_X as int,
        CORNER_RIGHT_Y as int,
    );
    let c = overlay_pixels(
        b,
        IMG_WIDTH as int,
        IMG_HEIGHT as int,
        water,
        ICON_SIZE as int,
        ICON_SIZE as int,
        CORNER_RIGHT_X + CORNER_PAD,
        CORNER_RIGHT_Y + CORNER_PAD,
    );
    overlay_pixels(
        c,
        IMG_WIDTH as int,
        IMG_HEIGHT as int,
        thermo,
        ICON_SIZE as int,
        ICON_SIZE as int,
        CORNER_RIGHT_X + CORNER_PAD,
        CORNER_RIGHT_Y + CORNER_PAD + CORNER_ROW_STEP,
    )
}

/// The six corner-block text draw commands: location and time in the left
/// block, then the humidity and temperature readings beside their icons
/// and the two overview lines in the right block.
pub open spec fn corner_texts_are(v: Seq<TextDraw>, info: WeatherInfo) -> bool {
    &&& v.len() == 6
    &&& text_draw_is(
        v[0],
        info.location@,
        CORNER_PAD as int,
        CORNER_LEFT_Y + CORNER_PAD,
        CORNER_FONT as int,
        spec_banner_text_color(),
    )
    &&& text_draw_is(
        v[1],
        info.time@,
        CORNER_PAD as int,
        CORNER_LEFT_Y + CORNER_PAD + CORNER_ROW_STEP,
        CORNER_FONT as int,
        spec_banner_text_color(),
    )
    &&& text_draw_is(
        v[2],
        spec_humd_text(info.humd),
        CORNER_RIGHT_X + 2 * CORNER_PAD + ICON_SIZE,
        CORNER_RIGHT_Y + CORNER_PAD,
        CORNER_FONT as int,
        spec_banner_text_color(),
    )
    &&& text_draw_is(
        v[3],
        spec_temp_text(info.temp),
        CORNER_RIGHT_X + 2 * CORNER_PAD + ICON_SIZE,
        CORNER_RIGHT_Y + CORNER_PAD + CORNER_ROW_STEP,
        CORNER_FONT as int,
        spec_banner_text_color(),
    )
    &&& text_draw_is(
        v[4],
        info.overview@,
        CORNER_RIGHT_X + CORNER_PAD,
        CORNER_RIGHT_Y + CORNER_PAD + 2 * CORNER_ROW_STEP,
        CORNER_FONT as int,
        spec_banner_text_color(),
    )
    &&& text_draw_is(
        v[5],
        info.overview2@,
        CORNER_RIGHT_X + CORNER_PAD,
        CORNER_RIGHT_Y + CORNER_PAD + 3 * CORNER_ROW_STEP,
        CORNER_FONT as int,
        spec_banner_text_color(),
    )
}

/// Render the corner template onto `canvas`: the title banner across the
/// top, the left block with location and time, and the right block with
/// the two readings behind their icons and the two overview lines.
///
/// The checks run in a fixed order — humidity value, temperature value,
/// title halves when the title wraps, then the block rows — and the first
/// failure aborts the render with the canvas untouched.
pub fn draw_corner(
    canvas: &mut Canvas,
    info: &WeatherInfo,
    widths: &BannerWidths,
    water: &Canvas,
    thermo: &Canvas,
) -> (r: Result<Vec<TextDraw>, DrawError>)
    requires
        old(canvas).wf(),
        old(canvas).width == IMG_WIDTH,
        old(canvas).height == IMG_HEIGHT,
        water.wf(),
        water.width == ICON_SIZE,
        water.height == ICON_SIZE,
        thermo.wf(),
        thermo.width == ICON_SIZE,
        thermo.height == ICON_SIZE,
    ensures
        final(canvas).wf(),
        final(canvas).width == IMG_WIDTH,
        final(canvas).height == IMG_HEIGHT,
        r is Ok <==> values_ok(*info) && title_ok(*widths) && corner_fits(*widths),
        r is Err ==> *final(canvas) == *old(canvas),
        r is Ok ==> final(canvas).pixels@ == spec_corner_pixels(
            spec_title_banner_pixels(old(canvas).pixels@, title_two_line(*widths), 0),
            water.pixels@,
            thermo.pixels@,
        ),
        r matches Ok(draws) ==> {
            let n = if title_two_line(*widths) {
                2int
            } else {
                1int
            };
            &&& draws@.len() == n + 6
            &&& !title_two_line(*widths) ==> title_texts_are(
                draws@.take(1),
                info.title@,
                (TitlePlan::SingleLine { x: (((IMG_WIDTH - widths.title as int) / 2) as u32) }),
                0,
            )
            &&& title_two_line(*widths) ==> title_texts_are(
                draws@.take(2),
                info.title@,
                (TitlePlan::TwoLine {
                    x1: (((IMG_WIDTH - widths.half1 as int) / 2) as u32),
                    x2: (((IMG_WIDTH - widths.half2 as int) / 2) as u32),
                }),
                0,
            )
            &&& corner_texts_are(draws@.skip(n), *info)
        },
{
    if let Err(e) = check_values(info) {
        return Err(e);
    }
    let plan = match plan_title(widths.title, widths.half1, widths.half2) {
        Ok(p) => p,
        Err(e) => {
            return Err(e);
        },
    };
    if let Err(e) = check_corner(widths) {
        return Err(e);
    }
    let two_line = widths.title >= IMG_WIDTH;
    composite_title_banner(canvas, two_line, 0);
    let left = Canvas::uniform(CORNER_LEFT_W, CORNER_LEFT_H, Rgba { r: 0, g: 0, b: 0, a: 150 });
    canvas.overlay(&left, 0, CORNER_LEFT_Y);
    let right = Canvas::uniform(
        CORNER_RIGHT_W,
        CORNER_RIGHT_H,
        Rgba { r: 0, g: 0, b: 0, a: 150 },
    );
    canvas.overlay(&right, CORNER_RIGHT_X, CORNER_RIGHT_Y);
    canvas.overlay(water, CORNER_RIGHT_X + CORNER_PAD, CORNER_RIGHT_Y + CORNER_PAD);
    canvas.overlay(
        thermo,
        CORNER_RIGHT_X + CORNER_PAD,
        CORNER_RIGHT_Y + CORNER_PAD + CORNER_ROW_STEP,
    );
    let mut draws = title_texts(info.title.as_str(), &plan, 0);
    let ghost n_title = draws@.len() as int;
    let mut blocks: Vec<TextDraw> = Vec::new();
    blocks.push(
        TextDraw {
            text: info.location.clone(),
            x: CORNER_PAD,
            y: CORNER_LEFT_Y + CORNER_PAD,
            size: CORNER_FONT,
            color: Rgba { r: 255, g: 255, b: 255, a: 255 },
        },
    );
    blocks.push(
        TextDraw {
            text: info.time.clone(),
            x: CORNER_PAD,
            y: CORNER_LEFT_Y + CORNER_PAD + CORNER_ROW_STEP,
            size: CORNER_FONT,
            color: Rgba { r: 255, g: 255, b: 255, a: 255 },
        },
    );
    blocks.push(
        TextDraw {
            text: humd_text(&info.humd),
            x: CORNER_RIGHT_X + 2 * CORNER_PAD + ICON_SIZE,
            y: CORNER_RIGHT_Y + CORNER_PAD,
            size: CORNER_FONT,
            color: Rgba { r: 255, g: 255, b: 255, a: 255 },
        },
    );
    blocks.push(
        TextDraw {
            text: temp_text(&info.temp),
            x: CORNER_RIGHT_X + 2 * CORNER_PAD + ICON_SIZE,
            y: CORNER_RIGHT_Y + CORNER_PAD + CORNER_ROW_STEP,
            size: CORNER_FONT,
            color: Rgba { r: 255, g: 255, b: 255, a: 255 },
        },
    );
    blocks.push(
        TextDraw {
            text: info.overview.clone(),
            x: CORNER_RIGHT_X + CORNER_PAD,
            y: CORNER_RIGHT_Y + CORNER_PAD + 2 * CORNER_ROW_STEP,
            size: CORNER_FONT,
            color: Rgba { r: 255, g: 255, b: 255, a: 255 },
        },
    );
    blocks.push(
        TextDraw {
            text: info.overview2.clone(),
            x: CORNER_RIGHT_X + CORNER_PAD,
            y: CORNER_RIGHT_Y + CORNER_PAD + 3 * CORNER_ROW_STEP,
            size: CORNER_FONT,
            color: Rgba { r: 255, g: 255, b: 255, a: 255 },
        },
    );
    let ghost bview = blocks@;
    draws.append(&mut blocks);
    proof {
        if two_line {
            assert(plan == (TitlePlan::TwoLine {
                x1: (((IMG_WIDTH - widths.half1 as int) / 2) as u32),
                x2: (((IMG_WIDTH - widths.half2 as int) / 2) as u32),
            }));
        } else {
            assert(plan == (TitlePlan::SingleLine {
                x: (((IMG_WIDTH - widths.title as int) / 2) as u32),
            }));
        }
        assert(draws@.take(n_title) =~= draws@.subrange(0, n_title));
        assert(draws@.skip(n_title) =~= bview);
    }
    Ok(draws)
}

} // verus!
