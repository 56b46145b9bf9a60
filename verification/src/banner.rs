//! The banner templates: a title banner across the top of the canvas with
//! the shared wrapping rule, and, for the bottom and chinese-banner
//! layouts, a full-width bottom strip of four equal columns holding
//! location and time, the two overview lines, and the humidity and
//! temperature readings beside their icons. The chinese-banner layout puts
//! a greeting banner above the title.

use vstd::prelude::*;
use vstd::math::min;
use crate::canvas::{overlay_pixels, uniform_pixels, Canvas};
use crate::color::Rgba;
use crate::fit::{check_value, check_width, DrawError, VALUE_LIMIT_TENTHS};
use crate::layout::{plan_title, text_draw_is, TextDraw, TitlePlan, IMG_HEIGHT, IMG_WIDTH};
use crate::textfmt::{split_title, TITLE_SPLIT_AT};
use crate::weather_info::{
    humd_text, spec_humd_text, spec_temp_text, temp_text, WeatherInfo,
};

verus! {

/// Height of the title banner when the title fits one line; a wrapped
/// title doubles it.
pub const TITLE_BANNER_HEIGHT: u32 = 100;

/// Font pixel height of the title.
pub const TITLE_FONT: u32 = 70;

/// Vertical padding between a banner's edge and its text.
pub const TITLE_PAD_Y: u32 = 15;

/// Height of the bottom strip.
pub const STRIP_HEIGHT: u32 = 120;

/// Vertical position of the bottom strip.
pub const STRIP_Y: u32 = 680;

/// Width of each of the four strip columns.
pub const COL_WIDTH: u32 = 200;

/// Horizontal padding inside a strip column.
pub const COL_PAD: u32 = 10;

/// Font pixel height of the strip's text.
pub const STRIP_FONT: u32 = 45;

/// Vertical position of the strip's first text row.
pub const STRIP_ROW1_Y: u32 = 690;

/// Vertical position of the strip's second text row.
pub const STRIP_ROW2_Y: u32 = 745;

/// Side length of the two square icons.
pub const ICON_SIZE: u32 = 50;

/// Vertical position of the icons, centered in the strip.
pub const ICON_Y: u32 = 715;

/// Widest text a plain strip column can hold beside its padding.
pub const STRIP_TEXT_LIMIT: u32 = 180;

/// Widest text an icon column can hold beside its icon and padding.
pub const STRIP_ICON_TEXT_LIMIT: u32 = 120;

/// Fill of the banners and the strip: translucent black.
pub open spec fn spec_banner_panel_color() -> Rgba {
    Rgba { r: 0, g: 0, b: 0, a: 150 }
}

/// Text color on the banners and the strip: opaque white.
pub open spec fn spec_banner_text_color() -> Rgba {
    Rgba { r: 255, g: 255, b: 255, a: 255 }
}

/// The measured widths a banner template lays out from: the title and its
/// two halves at the title font height, and the six strip or block texts
/// at their font height. The halves are the cuts of `split_title`; the
/// `humd` and `temp` entries measure the display strings of the two
/// readings, such as "87%" and "25℃".
#[derive(Clone, Copy, PartialEq, Eq, Structural, Debug)]
pub struct BannerWidths {
    pub title: u32,
    pub half1: u32,
    pub half2: u32,
    pub location: u32,
    pub time: u32,
    pub overview: u32,
    pub overview2: u32,
    pub humd: u32,
    pub temp: u32,
}

/// Both numeric fields are at or under the plausibility ceiling.
pub open spec fn values_ok(info: WeatherInfo) -> bool {
    &&& info.humd.tenths <= VALUE_LIMIT_TENTHS
    &&& info.temp.tenths <= VALUE_LIMIT_TENTHS
}

/// The title can be rendered: it either fits one line or both of its
/// halves fit the canvas.
pub open spec fn title_ok(w: BannerWidths) -> bool {
    w.title < IMG_WIDTH || (w.half1 <= IMG_WIDTH && w.half2 <= IMG_WIDTH)
}

/// The title needs the two-line path.
pub open spec fn title_two_line(w: BannerWidths) -> bool {
    w.title >= IMG_WIDTH
}

/// Every strip text fits its column.
pub open spec fn strip_fits(w: BannerWidths) -> bool {
    &&& w.location <= STRIP_TEXT_LIMIT
    &&& w.time <= STRIP_TEXT_LIMIT
    &&& w.overview <= STRIP_TEXT_LIMIT
    &&& w.overview2 <= STRIP_TEXT_LIMIT
    &&& w.humd <= STRIP_ICON_TEXT_LIMIT
    &&& w.temp <= STRIP_ICON_TEXT_LIMIT
}

/// Validate the two numeric fields, humidity first.
pub fn check_values(info: &WeatherInfo) -> (r: Result<(), DrawError>)
    ensures
        r is Ok <==> values_ok(*info),
        info.humd.tenths > VALUE_LIMIT_TENTHS ==> (r matches Err(e) && e matches
            DrawError::ValueTooHigh(v, l, c) && v == info.humd && l.tenths == VALUE_LIMIT_TENTHS
            && c@ == "humidity"@),
        info.humd.tenths <= VALUE_LIMIT_TENTHS && info.temp.tenths > VALUE_LIMIT_TENTHS ==> (
        r matches Err(e) && e matches DrawError::ValueTooHigh(v, l, c) && v == info.temp
            && l.tenths == VALUE_LIMIT_TENTHS && c@ == "temperature"@),
{
    if let Err(e) = check_value(info.humd, "humidity") {
        return Err(e);
    }
    if let Err(e) = check_value(info.temp, "temperature") {
        return Err(e);
    }
    Ok(())
}

/// Validate the six strip texts against their column limits, in the order
/// the columns are drawn.
pub fn check_strip(w: &BannerWidths) -> (r: Result<(), DrawError>)
    ensures
        r is Ok <==> strip_fits(*w),
        w.location > STRIP_TEXT_LIMIT ==> (r matches Err(e) && e matches DrawError::WidthTooLong(
            m,
            l,
            c,
        ) && m == w.location && l == STRIP_TEXT_LIMIT && c@ == "location"@),
        w.location <= STRIP_TEXT_LIMIT && w.time > STRIP_TEXT_LIMIT ==> (r matches Err(e)
            && e matches DrawError::WidthTooLong(m, l, c) && m == w.time && l == STRIP_TEXT_LIMIT
            && c@ == "time"@),
        w.location <= STRIP_TEXT_LIMIT && w.time <= STRIP_TEXT_LIMIT && w.overview
            > STRIP_TEXT_LIMIT ==> (r matches Err(e) && e matches DrawError::WidthTooLong(m, l, c)
            && m == w.overview && l == STRIP_TEXT_LIMIT && c@ == "overview"@),
        w.location <= STRIP_TEXT_LIMIT && w.time <= STRIP_TEXT_LIMIT && w.overview
            <= STRIP_TEXT_LIMIT && w.overview2 > STRIP_TEXT_LIMIT ==> (r matches Err(e)
            && e matches DrawError::WidthTooLong(m, l, c) && m == w.overview2 && l
            == STRIP_TEXT_LIMIT && c@ == "overview2"@),
        w.location <= STRIP_TEXT_LIMIT && w.time <= STRIP_TEXT_LIMIT && w.overview
            <= STRIP_TEXT_LIMIT && w.overview2 <= STRIP_TEXT_LIMIT && w.humd
            > STRIP_ICON_TEXT_LIMIT ==> (r matches Err(e) && e matches DrawError::WidthTooLong(
            m,
            l,
            c,
        ) && m == w.humd && l == STRIP_ICON_TEXT_LIMIT && c@ == "humidity"@),
        w.location <= STRIP_TEXT_LIMIT && w.time <= STRIP_TEXT_LIMIT && w.overview
            <= STRIP_TEXT_LIMIT && w.overview2 <= STRIP_TEXT_LIMIT && w.humd
            <= STRIP_ICON_TEXT_LIMIT && w.temp > STRIP_ICON_TEXT_LIMIT ==> (r matches Err(e)
            && e matches DrawError::WidthTooLong(m, l, c) && m == w.temp && l
            == STRIP_ICON_TEXT_LIMIT && c@ == "temperature"@),
{
    if let Err(e) = check_width(w.location, STRIP_TEXT_LIMIT, "location") {
        return Err(e);
    }
    if let Err(e) = check_width(w.time, STRIP_TEXT_LIMIT, "time") {
        return Err(e);
    }
    if let Err(e) = check_width(w.overview, STRIP_TEXT_LIMIT, "overview") {
        return Err(e);
    }
    if let Err(e) = check_width(w.overview2, STRIP_TEXT_LIMIT, "overview2") {
        return Err(e);
    }
    if let Err(e) = check_width(w.humd, STRIP_ICON_TEXT_LIMIT, "humidity") {
        return Err(e);
    }
    if let Err(e) = check_width(w.temp, STRIP_ICON_TEXT_LIMIT, "temperature") {
        return Err(e);
    }
    Ok(())
}

/// The strip's six text draw commands, in column order: location and time,
/// the two overview lines, and the humidity and temperature readings
/// beside their icons.
pub open spec fn strip_texts_are(v: Seq<TextDraw>, info: WeatherInfo) -> bool {
    &&& v.len() == 6
    &&& text_draw_is(
        v[0],
        info.location@,
        COL_PAD as int,
        STRIP_ROW1_Y as int,
        STRIP_FONT as int,
        spec_banner_text_color(),
    )
    &&& text_draw_is(
        v[1],
        info.time@,
        COL_PAD as int,
        STRIP_ROW2_Y as int,
        STRIP_FONT as int,
        spec_banner_text_color(),
    )
    &&& text_draw_is(
        v[2],
        info.overview@,
        COL_WIDTH + COL_PAD,
        STRIP_ROW1_Y as int,
        STRIP_FONT as int,
        spec_banner_text_color(),
    )
    &&& text_draw_is(
        v[3],
        info.overview2@,
        COL_WIDTH + COL_PAD,
        STRIP_ROW2_Y as int,
        STRIP_FONT as int,
        spec_banner_text_color(),
    )
    &&& text_draw_is(
        v[4],
        spec_humd_text(info.humd),
        2 * COL_WIDTH + 2 * COL_PAD + ICON_SIZE,
        ICON_Y as int,
        STRIP_FONT as int,
        spec_banner_text_color(),
    )
    &&& text_draw_is(
        v[5],
        spec_temp_text(info.temp),
        3 * COL_WIDTH + 2 * COL_PAD + ICON_SIZE,
        ICON_Y as int,
        STRIP_FONT as int,
        spec_banner_text_color(),
    )
}

/// Build the strip's six text draw commands.
pub fn strip_texts(info: &WeatherInfo) -> (v: Vec<TextDraw>)
    ensures
        strip_texts_are(v@, *info),
{
    let mut v: Vec<TextDraw> = Vec::new();
    v.push(
        TextDraw {
            text: info.location.clone(),
            x: COL_PAD,
            y: STRIP_ROW1_Y,
            size: STRIP_FONT,
            color: Rgba { r: 255, g: 255, b: 255, a: 255 },
        },
    );
    v.push(
        TextDraw {
            text: info.time.clone(),
            x: COL_PAD,
            y: STRIP_ROW2_Y,
            size: STRIP_FONT,
            color: Rgba { r: 255, g: 255, b: 255, a: 255 },
        },
    );
    v.push(
        TextDraw {
            text: info.overview.clone(),
            x: COL_WIDTH + COL_PAD,
            y: STRIP_ROW1_Y,
            size: STRIP_FONT,
            color: Rgba { r: 255, g: 255, b: 255, a: 255 },
        },
    );
    v.push(
        TextDraw {
            text: info.overview2.clone(),
            x: COL_WIDTH + COL_PAD,
            y: STRIP_ROW2_Y,
            size: STRIP_FONT,
            color: Rgba { r: 255, g: 255, b: 255, a: 255 },
        },
    );
    v.push(
        TextDraw {
            text: humd_text(&info.humd),
            x: 2 * COL_WIDTH + 2 * COL_PAD + ICON_SIZE,
            y: ICON_Y,
            size: STRIP_FONT,
            color: Rgba { r: 255, g: 255, b: 255, a: 255 },
        },
    );
    v.push(
        TextDraw {
            text: temp_text(&info.temp),
            x: 3 * COL_WIDTH + 2 * COL_PAD + ICON_SIZE,
            y: ICON_Y,
            size: STRIP_FONT,
            color: Rgba { r: 255, g: 255, b: 255, a: 255 },
        },
    );
    v
}

/// The canvas after the title banner panel is composited at `(0, y)`:
/// full width, one banner height for a single-line title and two for a
/// wrapped one.
pub open spec fn spec_title_banner_pixels(base: Seq<Rgba>, two_line: bool, y: int) -> Seq<Rgba> {
    let h = if two_line {
        2 * TITLE_BANNER_HEIGHT as int
    } else {
        TITLE_BANNER_HEIGHT as int
    };
    overlay_pixels(
        base,
        IMG_WIDTH as int,
        IMG_HEIGHT as int,
        uniform_pixels(IMG_WIDTH as int, h, spec_banner_panel_color()),
        IMG_WIDTH as int,
        h,
        0,
        y,
    )
}

/// Composite the title banner panel at `(0, y)`.
pub fn composite_title_banner(canvas: &mut Canvas, two_line: bool, y: u32)
    requires
        old(canvas).wf(),
        old(canvas).width == IMG_WIDTH,
        old(canvas).height == IMG_HEIGHT,
    ensures
        final(canvas).wf(),
        final(canvas).width == IMG_WIDTH,
        final(canvas).height == IMG_HEIGHT,
        final(canvas).pixels@ == spec_title_banner_pixels(old(canvas).pixels@, two_line, y as int),
{
    let h: u32 = if two_line {
        2 * TITLE_BANNER_HEIGHT
    } else {
        TITLE_BANNER_HEIGHT
    };
    let panel = Canvas::uniform(IMG_WIDTH, h, Rgba { r: 0, g: 0, b: 0, a: 150 });
    canvas.overlay(&panel, 0, y);
}

/// The canvas after the strip panel and the two icons are composited: the
/// full-width strip at the bottom, the water-drop icon in the third
/// column, the thermometer icon in the fourth.
pub open spec fn spec_strip_pixels(base: Seq<Rgba>, water: Seq<Rgba>, thermo: Seq<Rgba>) -> Seq<
    Rgba,
> {
    let a = overlay_pixels(
        base,
        IMG_WIDTH as int,
        IMG_HEIGHT as int,
        uniform_pixels(IMG_WIDTH as int, STRIP_HEIGHT as int, spec_banner_panel_color()),
        IMG_WIDTH as int,
        STRIP_HEIGHT as int,
        0,
        STRIP_Y as int,
    );
    let b = overlay_pixels(
        a,
        IMG_WIDTH as int,
        IMG_HEIGHT as int,
        water,
        ICON_SIZE as int,
        ICON_SIZE as int,
        2 * COL_WIDTH + COL_PAD,
        ICON_Y as int,
    );
    overlay_pixels(
        b,
        IMG_WIDTH as int,
        IMG_HEIGHT as int,
        thermo,
        ICON_SIZE as int,
        ICON_SIZE as int,
        3 * COL_WIDTH + COL_PAD,
        ICON_Y as int,
    )
}

/// Composite the strip panel and the two icons.
pub fn composite_strip(canvas: &mut Canvas, water: &Canvas, thermo: &Canvas)
    requires
        old(canvas).wf(),
        old(canvas).width == IMG_WIDTH,
        old(canvas).height == IMG_HEIGHT,
        water.wf(),
        water.width == ICON_SIZE,
        water.height == ICON_SIZE,
        thermo.wf(),
        thermo.width == ICON_SIZE,
        thermo.height == ICON_SIZE,
    ensures
        final(canvas).wf(),
        final(canvas).width == IMG_WIDTH,
        final(canvas).height == IMG_HEIGHT,
        final(canvas).pixels@ == spec_strip_pixels(
            old(canvas).pixels@,
            water.pixels@,
            thermo.pixels@,
        ),
{
    let panel = Canvas::uniform(IMG_WIDTH, STRIP_HEIGHT, Rgba { r: 0, g: 0, b: 0, a: 150 });
    canvas.overlay(&panel, 0, STRIP_Y);
    canvas.overlay(water, 2 * COL_WIDTH + COL_PAD, ICON_Y);
    canvas.overlay(thermo, 3 * COL_WIDTH + COL_PAD, ICON_Y);
}

/// The title's draw commands under `plan`, starting at banner position
/// `y`: one centered line, or the two halves of the fixed-boundary cut,
/// each centered, the second one banner height lower.
pub open spec fn title_texts_are(
    v: Seq<TextDraw>,
    title: Seq<char>,
    plan: TitlePlan,
    y: int,
) -> bool {
    match plan {
        TitlePlan::SingleLine { x } => {
            &&& v.len() == 1
            &&& text_draw_is(
                v[0],
                title,
                x as int,
                y + TITLE_PAD_Y,
                TITLE_FONT as int,
                spec_banner_text_color(),
            )
        },
        TitlePlan::TwoLine { x1, x2 } => {
            &&& v.len() == 2
            &&& text_draw_is(
                v[0],
                title.take(min(TITLE_SPLIT_AT as int, title.len() as int)),
                x1 as int,
                y + TITLE_PAD_Y,
                TITLE_FONT as int,
                spec_banner_text_color(),
            )
            &&& text_draw_is(
                v[1],
                title.skip(min(TITLE_SPLIT_AT as int, title.len() as int)),
                x2 as int,
                y + TITLE_BANNER_HEIGHT + TITLE_PAD_Y,
                TITLE_FONT as int,
                spec_banner_text_color(),
            )
        },
    }
}

/// Build the title's draw commands under `plan` for a banner at `(0, y)`.
pub fn title_texts(title: &str, plan: &TitlePlan, y: u32) -> (v: Vec<TextDraw>)
    requires
        y + 2 * TITLE_BANNER_HEIGHT <= IMG_HEIGHT,
    ensures
        title_texts_are(v@, title@, *plan, y as int),
{
    let mut v: Vec<TextDraw> = Vec::new();
    match plan {
        TitlePlan::SingleLine { x } => {
            v.push(
                TextDraw {
                    text: title.to_owned(),
                    x: *x,
                    y: y + TITLE_PAD_Y,
                    size: TITLE_FONT,
                    color: Rgba { r: 255, g: 255, b: 255, a: 255 },
                },
            );
        },
        TitlePlan::TwoLine { x1, x2 } => {
            let halves = split_title(title);
            v.push(
                TextDraw {
                    text: halves.0,
                    x: *x1,
                    y: y + TITLE_PAD_Y,
                    size: TITLE_FONT,
                    color: Rgba { r: 255, g: 255, b: 255, a: 255 },
                },
            );
            v.push(
                TextDraw {
                    text: halves.1,
                    x: *x2,
                    y: y + TITLE_BANNER_HEIGHT + TITLE_PAD_Y,
                    size: TITLE_FONT,
                    color: Rgba { r: 255, g: 255, b: 255, a: 255 },
                },
            );
        },
    }
    v
}

/// Render the bottom template onto `canvas`: the title banner across the
/// top, then the four-column strip along the bottom with the two icons.
///
/// The checks run in a fixed order — humidity value, temperature value,
/// title halves when the title wraps, then the strip columns — and the
/// first failure aborts the render with the canvas untouched. On success
/// the panels and icons are composited and the text draw commands (the
/// title line or two, then the six strip texts) are handed back.
pub fn draw_bottom(
    canvas: &mut Canvas,
    info: &WeatherInfo,
    widths: &BannerWidths,
    water: &Canvas,
    thermo: &Canvas,
) -> (r: Result<Vec<TextDraw>, DrawError>)
    requires
        old(canvas).wf(),
        old(canvas).width == IMG_WIDTH,
        old(canvas).height == IMG_HEIGHT,
        water.wf(),
        water.width == ICON_SIZE,
        water.height == ICON_SIZE,
        thermo.wf(),
        thermo.width == ICON_SIZE,
        thermo.height == ICON_SIZE,
    ensures
        final(canvas).wf(),
        final(canvas).width == IMG_WIDTH,
        final(canvas).height == IMG_HEIGHT,
        r is Ok <==> values_ok(*info) && title_ok(*widths) && strip_fits(*widths),
        r is Err ==> *final(canvas) == *old(canvas),
        r is Ok ==> final(canvas).pixels@ == spec_strip_pixels(
            spec_title_banner_pixels(old(canvas).pixels@, title_two_line(*widths), 0),
            water.pixels@,
            thermo.pixels@,
        ),
        r matches Ok(draws) ==> {
            let n = if title_two_line(*widths) {
                2int
            } else {
                1int
            };
            &&& draws@.len() == n + 6
            &&& !title_two_line(*widths) ==> title_texts_are(
                draws@.take(1),
                info.title@,
                (TitlePlan::SingleLine { x: (((IMG_WIDTH - widths.title as int) / 2) as u32) }),
                0,
            )
            &&& title_two_line(*widths) ==> title_texts_are(
                draws@.take(2),
                info.title@,
                (TitlePlan::TwoLine {
                    x1: (((IMG_WIDTH - widths.half1 as int) / 2) as u32),
                    x2: (((IMG_WIDTH - widths.half2 as int) / 2) as u32),
                }),
                0,
            )
            &&& strip_texts_are(draws@.skip(n), *info)
        },
{
    if let Err(e) = check_values(info) {
        return Err(e);
    }
    let plan = match plan_title(widths.title, widths.half1, widths.half2) {
        Ok(p) => p,
        Err(e) => {
            return Err(e);
        },
    };
    if let Err(e) = check_strip(widths) {
        return Err(e);
    }
    let two_line = widths.title >= IMG_WIDTH;
    composite_title_banner(canvas, two_line, 0);
    composite_strip(canvas, water, thermo);
    let mut draws = title_texts(info.title.as_str(), &plan, 0);
    let ghost n_title = draws@.len() as int;
    let mut strip = strip_texts(info);
    draws.append(&mut strip);
    proof {
        if two_line {
            assert(plan == (TitlePlan::TwoLine {
                x1: (((IMG_WIDTH - widths.half1 as int) / 2) as u32),
                x2: (((IMG_WIDTH - widths.half2 as int) / 2) as u32),
            }));
        } else {
            assert(plan == (TitlePlan::SingleLine {
                x: (((IMG_WIDTH - widths.title as int) / 2) as u32),
            }));
        }
        assert(draws@.take(n_title) =~= draws@.subrange(0, n_title));
        assert(title_texts_are(draws@.take(n_title), info.title@, plan, 0));
        assert(draws@.skip(n_title) =~= draws@.subrange(n_title, draws@.len() as int));
        assert(strip_texts_are(draws@.skip(n_title), *info));
    }
    Ok(draws)
}

/// Height of the greeting banner of the chinese-banner template.
pub const GREETING_BANNER_HEIGHT: u32 = 80;

/// Font pixel height of the greeting.
pub const GREETING_FONT: u32 = 50;

/// The fixed curated list of greeting strings of the chinese-banner
/// template.
pub open spec fn spec_greetings() -> Seq<Seq<char>> {
    seq!["今天也要加油"@, "記得帶傘喔"@, "天冷多穿一件"@, "祝你有美好的一天"@]
}

/// Pick a greeting from the fixed list. The caller supplies the index —
/// drawn from whatever randomness source it prefers — and any index maps
/// onto the list, so the choice is reproducible in tests.
pub fn pick_greeting(index: usize) -> (r: String)
    ensures
        r@ == spec_greetings()[index as int % 4],
{
    let sel = index % 4;
    if sel == 0 {
        "今天也要加油".to_owned()
    } else if sel == 1 {
        "記得帶傘喔".to_owned()
    } else if sel == 2 {
        "天冷多穿一件".to_owned()
    } else {
        "祝你有美好的一天".to_owned()
    }
}

/// The canvas after the greeting banner panel is composited across the
/// top.
pub open spec fn spec_greeting_banner_pixels(base: Seq<Rgba>) -> Seq<Rgba> {
    overlay_pixels(
        base,
        IMG_WIDTH as int,
        IMG_HEIGHT as int,
        uniform_pixels(
            IMG_WIDTH as int,
            GREETING_BANNER_HEIGHT as int,
            spec_banner_panel_color(),
        ),
        IMG_WIDTH as int,
        GREETING_BANNER_HEIGHT as int,
        0,
        0,
    )
}

/// Render the chinese-banner template onto `canvas`: a greeting banner
/// across the top, the title banner below it, then the four-column strip
/// with the two icons.
///
/// The greeting is one of the fixed list, already chosen by the caller
/// (see `pick_greeting`) and measured at the greeting font height. The
/// checks run in a fixed order — humidity value, temperature value, the
/// greeting, title halves when the title wraps, then the strip columns —
/// and the first failure aborts the render with the canvas untouched.
pub fn draw_chinese_banner(
    canvas: &mut Canvas,
    info: &WeatherInfo,
    widths: &BannerWidths,
    greeting: &str,
    greeting_w: u32,
    water: &Canvas,
    thermo: &Canvas,
) -> (r: Result<Vec<TextDraw>, DrawError>)
    requires
        old(canvas).wf(),
        old(canvas).width == IMG_WIDTH,
        old(canvas).height == IMG_HEIGHT,
        water.wf(),
        water.width == ICON_SIZE,
        water.height == ICON_SIZE,
        thermo.wf(),
        thermo.width == ICON_SIZE,
        thermo.height == ICON_SIZE,
    ensures
        final(canvas).wf(),
        final(canvas).width == IMG_WIDTH,
        final(canvas).height == IMG_HEIGHT,
        r is Ok <==> values_ok(*info) && greeting_w <= IMG_WIDTH && title_ok(*widths)
            && strip_fits(*widths),
        r is Err ==> *final(canvas) == *old(canvas),
        values_ok(*info) && greeting_w > IMG_WIDTH ==> (r matches Err(e) && e matches
            DrawError::WidthTooLong(m, l, c) && m == greeting_w && l == IMG_WIDTH && c@
            == "greeting"@),
        r is Ok ==> final(canvas).pixels@ == spec_strip_pixels(
            spec_title_banner_pixels(
                spec_greeting_banner_pixels(old(canvas).pixels@),
                title_two_line(*widths),
                GREETING_BANNER_HEIGHT as int,
            ),
            water.pixels@,
            thermo.pixels@,
        ),
        r matches Ok(draws) ==> {
            let n = if title_two_line(*widths) {
                2int
            } else {
                1int
            };
            &&& draws@.len() == 1 + n + 6
            &&& text_draw_is(
                draws@[0],
                greeting@,
                (IMG_WIDTH - greeting_w as int) / 2,
                TITLE_PAD_Y as int,
                GREETING_FONT as int,
                spec_banner_text_color(),
            )
            &&& !title_two_line(*widths) ==> title_texts_are(
                draws@.subrange(1, 2),
                info.title@,
                (TitlePlan::SingleLine { x: (((IMG_WIDTH - widths.title as int) / 2) as u32) }),
                GREETING_BANNER_HEIGHT as int,
            )
            &&& title_two_line(*widths) ==> title_texts_are(
                draws@.subrange(1, 3),
                info.title@,
                (TitlePlan::TwoLine {
                    x1: (((IMG_WIDTH - widths.half1 as int) / 2) as u32),
                    x2: (((IMG_WIDTH - widths.half2 as int) / 2) as u32),
                }),
                GREETING_BANNER_HEIGHT as int,
            )
            &&& strip_texts_are(draws@.skip(1 + n), *info)
        },
{
    if let Err(e) = check_values(info) {
        return Err(e);
    }
    if let Err(e) = check_width(greeting_w, IMG_WIDTH, "greeting") {
        return Err(e);
    }
    let plan = match plan_title(widths.title, widths.half1, widths.half2) {
        Ok(p) => p,
        Err(e) => {
            return Err(e);
        },
    };
    if let Err(e) = check_strip(widths) {
        return Err(e);
    }
    let two_line = widths.title >= IMG_WIDTH;
    let greeting_panel = Canvas::uniform(
        IMG_WIDTH,
        GREETING_BANNER_HEIGHT,
        Rgba { r: 0, g: 0, b: 0, a: 150 },
    );
    canvas.overlay(&greeting_panel, 0, 0);
    composite_title_banner(canvas, two_line, GREETING_BANNER_HEIGHT);
    composite_strip(canvas, water, thermo);
    let mut draws: Vec<TextDraw> = Vec::new();
    draws.push(
        TextDraw {
            text: greeting.to_owned(),
            x: (IMG_WIDTH - greeting_w) / 2,
            y: TITLE_PAD_Y,
            size: GREETING_FONT,
            color: Rgba { r: 255, g: 255, b: 255, a: 255 },
        },
    );
    let mut title_part = title_texts(info.title.as_str(), &plan, GREETING_BANNER_HEIGHT);
    let ghost n_title = title_part@.len() as int;
    let ghost tview = title_part@;
    draws.append(&mut title_part);
    let mut strip = strip_texts(info);
    let ghost sview = strip@;
    draws.append(&mut strip);
    proof {
        if two_line {
            assert(plan == (TitlePlan::TwoLine {
                x1: (((IMG_WIDTH - widths.half1 as int) / 2) as u32),
                x2: (((IMG_WIDTH - widths.half2 as int) / 2) as u32),
            }));
        } else {
            assert(plan == (TitlePlan::SingleLine {
                x: (((IMG_WIDTH - widths.title as int) / 2) as u32),
            }));
        }
        assert(draws@.subrange(1, 1 + n_title) =~= tview);
        assert(draws@.skip(1 + n_title) =~= sview);
    }
    Ok(draws)
}

} // verus!
