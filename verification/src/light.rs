//! The light template: no title banner; two translucent panels near the
//! bottom of the canvas whose geometry is driven by the measured content
//! they must enclose, one with title, time and location, the other with
//! the combined overview line. The only template whose panel sizes are
//! computed from measurements, so the fit validator and the measurements
//! run before any panel is composited.

use vstd::prelude::*;
use crate::canvas::{overlay_pixels, uniform_pixels, Canvas};
use crate::color::Rgba;
use crate::fit::{check_value, check_width, DrawError, VALUE_LIMIT_TENTHS};
use crate::layout::{TextDraw, IMG_HEIGHT, IMG_WIDTH};
use crate::weather_info::{combined_line, spec_combined_line, WeatherInfo};

verus! {

/// Height of the first (title / time / location) panel.
pub const LIGHT_BLOCK1_HEIGHT: u32 = 160;

/// Vertical position of the first panel.
pub const LIGHT_BLOCK1_Y: u32 = 500;

/// Horizontal padding inside the first panel.
pub const LIGHT_PAD1: u32 = 20;

/// Font pixel height of the first panel's text.
pub const LIGHT_FONT1: u32 = 70;

/// Height of the second (combined overview) panel.
pub const LIGHT_BLOCK2_HEIGHT: u32 = 75;

/// Horizontal padding inside the second panel.
pub const LIGHT_PAD2: u32 = 10;

/// Font pixel height of the second panel's text.
pub const LIGHT_FONT2: u32 = 65;

/// Widest title the first panel can hold with its padding.
pub const LIGHT_TITLE_LIMIT: u32 = 760;

/// Widest time-plus-location line the first panel can hold: the time and
/// the location share one line with padding before, between and after.
pub const LIGHT_LINE1_LIMIT: u32 = 740;

/// Widest combined overview line the second panel can hold.
pub const LIGHT_LINE2_LIMIT: u32 = 780;

/// The measured widths the light template lays out from: the title, time
/// and location at the first panel's font height, and the combined
/// overview line at the second panel's font height.
#[derive(Clone, Copy, PartialEq, Eq, Structural, Debug)]
pub struct LightWidths {
    pub title: u32,
    pub time: u32,
    pub location: u32,
    pub line: u32,
}

/// Fill of the first panel: translucent near-black.
pub open spec fn spec_light_panel1_color() -> Rgba {
    Rgba { r: 20, g: 20, b: 20, a: 200 }
}

/// Text color on the first panel: opaque white.
pub open spec fn spec_light_text1_color() -> Rgba {
    Rgba { r: 255, g: 255, b: 255, a: 255 }
}

/// Fill of the second panel: translucent white.
pub open spec fn spec_light_panel2_color() -> Rgba {
    Rgba { r: 255, g: 255, b: 255, a: 200 }
}

/// Text color on the second panel: opaque black.
pub open spec fn spec_light_text2_color() -> Rgba {
    Rgba { r: 0, g: 0, b: 0, a: 255 }
}

/// Every validated field of the record fits its allotted space: both
/// numeric values are at or under the plausibility ceiling, the title and
/// the time-plus-location line fit the first panel, and the combined
/// overview line fits the second.
pub open spec fn light_fits(info: WeatherInfo, w: LightWidths) -> bool {
    &&& info.humd.tenths <= VALUE_LIMIT_TENTHS
    &&& info.temp.tenths <= VALUE_LIMIT_TENTHS
    &&& w.title <= LIGHT_TITLE_LIMIT
    &&& w.time <= LIGHT_LINE1_LIMIT
    &&& w.location as int <= LIGHT_LINE1_LIMIT - w.time as int
    &&& w.line <= LIGHT_LINE2_LIMIT
}

/// Length of the first panel: it must reach past both of its text lines,
/// the time-plus-location line and the title, plus trailing padding.
pub open spec fn spec_light_panel1_len(w: LightWidths) -> int {
    let first_end = 2 * LIGHT_PAD1 + w.time + w.location;
    let second_end = LIGHT_PAD1 + w.title;
    (if first_end > second_end {
        first_end as int
    } else {
        second_end as int
    }) + LIGHT_PAD1
}

/// Length of the second panel: the combined line plus padding on both
/// sides.
pub open spec fn spec_light_panel2_len(w: LightWidths) -> int {
    w.line + 2 * LIGHT_PAD2
}

/// Horizontal position of the second panel: flush against the right edge
/// of the canvas.
pub open spec fn spec_light_panel2_x(w: LightWidths) -> int {
    IMG_WIDTH - w.line as int - 2 * LIGHT_PAD2
}

/// Render the light template onto `canvas`.
///
/// The checks run in a fixed order — humidity, temperature, title, time,
/// location, combined overview line — and the first failure aborts the
/// render with the canvas untouched. On success the two panels are
/// composited and the four text draw commands (title, time, location,
/// combined line) are handed back for the caller's rasterizer.
pub fn draw_light(canvas: &mut Canvas, info: &WeatherInfo, widths: &LightWidths) -> (r: Result<
    Vec<TextDraw>,
    DrawError,
>)
    requires
        old(canvas).wf(),
        old(canvas).width == IMG_WIDTH,
        old(canvas).height == IMG_HEIGHT,
    ensures
        final(canvas).wf(),
        final(canvas).width == IMG_WIDTH,
        final(canvas).height == IMG_HEIGHT,
        r is Ok <==> light_fits(*info, *widths),
        r is Err ==> *final(canvas) == *old(canvas),
        info.humd.tenths > VALUE_LIMIT_TENTHS ==> (r matches Err(e) && e matches
            DrawError::ValueTooHigh(v, l, c) && v == info.humd && l.tenths == VALUE_LIMIT_TENTHS
            && c@ == "humidity"@),
        info.humd.tenths <= VALUE_LIMIT_TENTHS && info.temp.tenths > VALUE_LIMIT_TENTHS ==> (
        r matches Err(e) && e matches DrawError::ValueTooHigh(v, l, c) && v == info.temp
            && l.tenths == VALUE_LIMIT_TENTHS && c@ == "temperature"@),
        info.humd.tenths <= VALUE_LIMIT_TENTHS && info.temp.tenths <= VALUE_LIMIT_TENTHS
            && widths.title > LIGHT_TITLE_LIMIT ==> (r matches Err(e) && e matches
            DrawError::WidthTooLong(w, l, c) && w == widths.title && l == LIGHT_TITLE_LIMIT && c@
            == "title"@),
        info.humd.tenths <= VALUE_LIMIT_TENTHS && info.temp.tenths <= VALUE_LIMIT_TENTHS
            && widths.title <= LIGHT_TITLE_LIMIT && widths.time > LIGHT_LINE1_LIMIT ==> (r matches
            Err(e) && e matches DrawError::WidthTooLong(w, l, c) && w == widths.time && l
            == LIGHT_LINE1_LIMIT && c@ == "time"@),
        info.humd.tenths <= VALUE_LIMIT_TENTHS && info.temp.tenths <= VALUE_LIMIT_TENTHS
            && widths.title <= LIGHT_TITLE_LIMIT && widths.time <= LIGHT_LINE1_LIMIT
            && widths.location as int > LIGHT_LINE1_LIMIT - widths.time as int ==> (r matches Err(
        e,
        ) && e matches DrawError::WidthTooLong(w, l, c) && w == widths.location && l as int
            == LIGHT_LINE1_LIMIT - widths.time as int && c@ == "location"@),
        info.humd.tenths <= VALUE_LIMIT_TENTHS && info.temp.tenths <= VALUE_LIMIT_TENTHS
            && widths.title <= LIGHT_TITLE_LIMIT && widths.time <= LIGHT_LINE1_LIMIT
            && widths.location as int <= LIGHT_LINE1_LIMIT - widths.time as int && widths.line
            > LIGHT_LINE2_LIMIT ==> (r matches Err(e) && e matches DrawError::WidthTooLong(
            w,
            l,
            c,
        ) && w == widths.line && l == LIGHT_LINE2_LIMIT && c@ == "overview"@),
        r is Ok ==> final(canvas).pixels@ == overlay_pixels(
            overlay_pixels(
                old(canvas).pixels@,
                IMG_WIDTH as int,
                IMG_HEIGHT as int,
                uniform_pixels(
                    spec_light_panel1_len(*widths),
                    LIGHT_BLOCK1_HEIGHT as int,
                    spec_light_panel1_color(),
                ),
                spec_light_panel1_len(*widths),
                LIGHT_BLOCK1_HEIGHT as int,
                0,
                LIGHT_BLOCK1_Y as int,
            ),
            IMG_WIDTH as int,
            IMG_HEIGHT as int,
            uniform_pixels(
                spec_light_panel2_len(*widths),
                LIGHT_BLOCK2_HEIGHT as int,
                spec_light_panel2_color(),
            ),
            spec_light_panel2_len(*widths),
            LIGHT_BLOCK2_HEIGHT as int,
            spec_light_panel2_x(*widths),
            IMG_HEIGHT as int - LIGHT_BLOCK2_HEIGHT as int,
        ),
        r matches Ok(draws) ==> {
            &&& draws@.len() == 4
            &&& draws@[0].text@ == info.title@
            &&& draws@[0].x == LIGHT_PAD1
            &&& draws@[0].y == LIGHT_BLOCK1_Y + LIGHT_BLOCK1_HEIGHT / 2
            &&& draws@[0].size == LIGHT_FONT1
            &&& draws@[0].color == spec_light_text1_color()
            &&& draws@[1].text@ == info.time@
            &&& draws@[1].x == LIGHT_PAD1
            &&& draws@[1].y == LIGHT_BLOCK1_Y
            &&& draws@[1].size == LIGHT_FONT1
            &&& draws@[1].color == spec_light_text1_color()
            &&& draws@[2].text@ == info.location@
            &&& draws@[2].x as int == 2 * LIGHT_PAD1 + widths.time as int
            &&& draws@[2].y == LIGHT_BLOCK1_Y
            &&& draws@[2].size == LIGHT_FONT1
            &&& draws@[2].color == spec_light_text1_color()
            &&& draws@[3].text@ == spec_combined_line(*info)
            &&& draws@[3].x as int == IMG_WIDTH - (widths.line as int + LIGHT_PAD2)
            &&& draws@[3].y as int == IMG_HEIGHT - LIGHT_BLOCK2_HEIGHT as int
            &&& draws@[3].size == LIGHT_FONT2
            &&& draws@[3].color == spec_light_text2_color()
        },
{
    if let Err(e) = check_value(info.humd, "humidity") {
        return Err(e);
    }
    if let Err(e) = check_value(info.temp, "temperature") {
        return Err(e);
    }
    if let Err(e) = check_width(widths.title, LIGHT_TITLE_LIMIT, "title") {
        return Err(e);
    }
    if let Err(e) = check_width(widths.time, LIGHT_LINE1_LIMIT, "time") {
        return Err(e);
    }
    if let Err(e) = check_width(widths.location, LIGHT_LINE1_LIMIT - widths.time, "location") {
        return Err(e);
    }
    if let Err(e) = check_width(widths.line, LIGHT_LINE2_LIMIT, "overview") {
        return Err(e);
    }
    let first_end = 2 * LIGHT_PAD1 + widths.time + widths.location;
    let second_end = LIGHT_PAD1 + widths.title;
    let p1_len = (if first_end > second_end {
        first_end
    } else {
        second_end
    }) + LIGHT_PAD1;
    let p1 = Canvas::uniform(
        p1_len,
        LIGHT_BLOCK1_HEIGHT,
        Rgba { r: 20, g: 20, b: 20, a: 200 },
    );
    canvas.overlay(&p1, 0, LIGHT_BLOCK1_Y);
    let p2_len = widths.line + 2 * LIGHT_PAD2;
    let p2 = Canvas::uniform(
        p2_len,
        LIGHT_BLOCK2_HEIGHT,
        Rgba { r: 255, g: 255, b: 255, a: 200 },
    );
    let p2_x = IMG_WIDTH - widths.line - 2 * LIGHT_PAD2;
    let p2_y = IMG_HEIGHT - LIGHT_BLOCK2_HEIGHT;
    canvas.overlay(&p2, p2_x, p2_y);
    let mut draws: Vec<TextDraw> = Vec::new();
    draws.push(
        TextDraw {
            text: info.title.clone(),
            x: LIGHT_PAD1,
            y: LIGHT_BLOCK1_Y + LIGHT_BLOCK1_HEIGHT / 2,
            size: LIGHT_FONT1,
            color: Rgba { r: 255, g: 255, b: 255, a: 255 },
        },
    );
    draws.push(
        TextDraw {
            text: info.time.clone(),
            x: LIGHT_PAD1,
            y: LIGHT_BLOCK1_Y,
            size: LIGHT_FONT1,
            color: Rgba { r: 255, g: 255, b: 255, a: 255 },
        },
    );
    draws.push(
        TextDraw {
            text: info.location.clone(),
            x: 2 * LIGHT_PAD1 + widths.time,
            y: LIGHT_BLOCK1_Y,
            size: LIGHT_FONT1,
            color: Rgba { r: 255, g: 255, b: 255, a: 255 },
        },
    );
    draws.push(
        TextDraw {
            text: combined_line(info),
            x: IMG_WIDTH - (widths.line + LIGHT_PAD2),
            y: IMG_HEIGHT - LIGHT_BLOCK2_HEIGHT,
            size: LIGHT_FONT2,
            color: Rgba { r: 0, g: 0, b: 0, a: 255 },
        },
    );
    Ok(draws)
}

} // verus!
