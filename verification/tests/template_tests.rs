//! Scenario checks of the layout templates: title wrapping and centering,
//! the validation order, the content-driven panels of the light template,
//! and the display strings.

use weather_card::banner::{draw_bottom, draw_chinese_banner, pick_greeting, BannerWidths};
use weather_card::canvas::Canvas;
use weather_card::color::Rgba;
use weather_card::corner::draw_corner;
use weather_card::fit::{DrawError, Fixed};
use weather_card::layout::{plan_title, TitlePlan};
use weather_card::light::{draw_light, LightWidths};
use weather_card::textfmt::{fixed_string, split_title, udec_string};
use weather_card::weather_info::{combined_line, humd_text, temp_text, WeatherInfo};

fn gray() -> Rgba {
    Rgba { r: 100, g: 100, b: 100, a: 255 }
}

fn base_canvas() -> Canvas {
    Canvas::uniform(800, 800, gray())
}

fn icon() -> Canvas {
    Canvas::uniform(50, 50, Rgba { r: 0, g: 0, b: 255, a: 255 })
}

fn record() -> WeatherInfo {
    WeatherInfo {
        title: "Taipei Sunny".to_string(),
        location: "Taipei".to_string(),
        time: "1/13".to_string(),
        temp: Fixed::from_int(25),
        humd: Fixed::from_int(87),
        overview: "Rainy".to_string(),
        overview2: "Hot".to_string(),
    }
}

fn banner_widths() -> BannerWidths {
    BannerWidths {
        title: 400,
        half1: 0,
        half2: 0,
        location: 120,
        time: 80,
        overview: 100,
        overview2: 60,
        humd: 70,
        temp: 80,
    }
}

#[test]
fn single_line_title_centered() {
    // A 400-pixel title on the 800-pixel canvas renders on one line,
    // centered at x = 200.
    let plan = plan_title(400, 0, 0).unwrap();
    assert_eq!(plan, TitlePlan::SingleLine { x: 200 });
}

#[test]
fn wide_title_wraps_to_two_lines() {
    // An 850-pixel title exceeds the canvas, so it is cut at the fixed
    // boundary; each half is measured and centered on its own.
    let plan = plan_title(850, 420, 400).unwrap();
    assert_eq!(plan, TitlePlan::TwoLine { x1: 190, x2: 200 });
}

#[test]
fn wide_title_with_oversize_half_is_rejected() {
    match plan_title(900, 810, 400) {
        Err(DrawError::WidthTooLong(measured, limit, case)) => {
            assert_eq!(measured, 810);
            assert_eq!(limit, 800);
            assert_eq!(case, "title");
        }
        _ => panic!("expected a width failure for the first half"),
    }
}

#[test]
fn title_splits_at_thirty_characters() {
    let title = "abcdefghijklmnopqrstuvwxyz0123456789ABCDEFGHIJ";
    let (head, tail) = split_title(title);
    assert_eq!(head, "abcdefghijklmnopqrstuvwxyz0123");
    assert_eq!(tail, "456789ABCDEFGHIJ");
    let (short_head, short_tail) = split_title("short");
    assert_eq!(short_head, "short");
    assert_eq!(short_tail, "");
}

#[test]
fn banner_height_doubles_when_title_wraps() {
    // A single-line title banner covers the top 100 rows; a wrapped title
    // doubles it to 200, which shows in the rows in between.
    let blended = Rgba { r: 41, g: 41, b: 41, a: 255 };
    let mut single = base_canvas();
    let single_draws =
        draw_bottom(&mut single, &record(), &banner_widths(), &icon(), &icon()).unwrap();
    assert_eq!(single.get(5, 50), blended);
    assert_eq!(single.get(5, 150), gray());
    // The 400-pixel title is centered at x = 200 on the single line.
    assert_eq!((single_draws[0].x, single_draws[0].y), (200, 15));

    let mut wide = banner_widths();
    wide.title = 850;
    wide.half1 = 420;
    wide.half2 = 400;
    let mut double = base_canvas();
    let draws = draw_bottom(&mut double, &record(), &wide, &icon(), &icon()).unwrap();
    assert_eq!(double.get(5, 150), blended);
    assert_eq!(double.get(5, 250), gray());
    // The two halves are centered independently, the second one banner
    // height lower.
    assert_eq!(draws[0].x, 190);
    assert_eq!(draws[0].y, 15);
    assert_eq!(draws[1].x, 200);
    assert_eq!(draws[1].y, 115);
}

#[test]
fn valid_values_render_exact_reading_strings() {
    // Humidity 87.0 and temperature 25.0 pass both validators and render
    // exactly as "87%" and "25℃".
    let info = record();
    let mut canvas = base_canvas();
    let draws = draw_bottom(&mut canvas, &info, &banner_widths(), &icon(), &icon()).unwrap();
    assert_eq!(humd_text(&info.humd), "87%");
    assert_eq!(temp_text(&info.temp), "25℃");
    assert_eq!(draws[5].text, "87%");
    assert_eq!(draws[6].text, "25℃");
}

#[test]
fn out_of_range_humidity_aborts_before_drawing() {
    // Humidity 120.0 fails validation; the error names the field, value
    // and limit, and not one pixel of the canvas has been touched.
    let mut info = record();
    info.humd = Fixed::from_int(120);
    let mut canvas = base_canvas();
    let before = canvas.pixels.clone();
    match draw_light(&mut canvas, &info, &light_widths()) {
        Err(DrawError::ValueTooHigh(value, limit, case)) => {
            assert_eq!(value.tenths, 1200);
            assert_eq!(limit.tenths, 1000);
            assert_eq!(case, "humidity");
        }
        _ => panic!("expected a value failure for humidity"),
    }
    assert_eq!(canvas.pixels, before);

    let mut banner_canvas = base_canvas();
    let before_banner = banner_canvas.pixels.clone();
    assert!(draw_bottom(&mut banner_canvas, &info, &banner_widths(), &icon(), &icon()).is_err());
    assert_eq!(banner_canvas.pixels, before_banner);
}

fn light_widths() -> LightWidths {
    LightWidths { title: 400, time: 120, location: 200, line: 500 }
}

#[test]
fn light_combined_line_exact() {
    let mut info = record();
    info.humd = Fixed::from_int(60);
    assert_eq!(combined_line(&info), "Rainy｜Hot｜25℃｜湿60%");
}

#[test]
fn light_panel_width_is_content_plus_padding() {
    // The second panel of the light template is sized from the measured
    // combined line plus the fixed padding: with a 500-pixel line and
    // 10-pixel padding it spans x = 780 - 520 .. 780 + 20 at the bottom.
    let info = record();
    let widths = light_widths();
    let mut canvas = base_canvas();
    let draws = draw_light(&mut canvas, &info, &widths).unwrap();
    // Inside the panel: translucent white over gray.
    // num = 255 * 200 * 255 + 100 * 255 * 55, den = 200 * 255 + 255 * 55.
    let blended = Rgba { r: 221, g: 221, b: 221, a: 255 };
    assert_eq!(canvas.get(799, 790), blended);
    assert_eq!(canvas.get(280, 790), blended);
    assert_eq!(canvas.get(279, 790), gray());
    assert_eq!(canvas.get(280, 724), gray());
    // The combined line starts one padding inside the panel.
    assert_eq!(draws[3].x, 800 - (500 + 10));
    assert_eq!(draws[3].y, 725);
}

#[test]
fn light_draws_title_time_location() {
    let info = record();
    let widths = light_widths();
    let mut canvas = base_canvas();
    let draws = draw_light(&mut canvas, &info, &widths).unwrap();
    assert_eq!(draws.len(), 4);
    assert_eq!(draws[0].text, "Taipei Sunny");
    assert_eq!((draws[0].x, draws[0].y, draws[0].size), (20, 580, 70));
    assert_eq!(draws[1].text, "1/13");
    assert_eq!((draws[1].x, draws[1].y), (20, 500));
    assert_eq!(draws[2].text, "Taipei");
    assert_eq!((draws[2].x, draws[2].y), (40 + 120, 500));
}

#[test]
fn light_rejects_overlong_overview_line() {
    let info = record();
    let mut widths = light_widths();
    widths.line = 781;
    let mut canvas = base_canvas();
    match draw_light(&mut canvas, &info, &widths) {
        Err(DrawError::WidthTooLong(measured, limit, case)) => {
            assert_eq!(measured, 781);
            assert_eq!(limit, 780);
            assert_eq!(case, "overview");
        }
        _ => panic!("expected a width failure for the overview line"),
    }
}

#[test]
fn chinese_banner_adds_greeting_above_title() {
    let info = record();
    let widths = banner_widths();
    let greeting = pick_greeting(2);
    assert_eq!(greeting, "天冷多穿一件");
    let mut canvas = base_canvas();
    let draws =
        draw_chinese_banner(&mut canvas, &info, &widths, &greeting, 300, &icon(), &icon())
            .unwrap();
    assert_eq!(draws.len(), 8);
    assert_eq!(draws[0].text, "天冷多穿一件");
    assert_eq!((draws[0].x, draws[0].y), (250, 15));
    // The title line sits below the 80-pixel greeting banner.
    assert_eq!(draws[1].text, "Taipei Sunny");
    assert_eq!((draws[1].x, draws[1].y), (200, 95));
    // Greeting banner, title banner and strip all darken the base.
    let blended = Rgba { r: 41, g: 41, b: 41, a: 255 };
    assert_eq!(canvas.get(5, 40), blended);
    assert_eq!(canvas.get(5, 120), blended);
    assert_eq!(canvas.get(5, 700), blended);
}

#[test]
fn greeting_choice_wraps_around_the_list() {
    assert_eq!(pick_greeting(0), "今天也要加油");
    assert_eq!(pick_greeting(5), "記得帶傘喔");
    assert_eq!(pick_greeting(7), "祝你有美好的一天");
}

#[test]
fn corner_template_draws_blocks() {
    let info = record();
    let widths = banner_widths();
    let mut canvas = base_canvas();
    let draws = draw_corner(&mut canvas, &info, &widths, &icon(), &icon()).unwrap();
    assert_eq!(draws.len(), 7);
    assert_eq!(draws[0].text, "Taipei Sunny");
    assert_eq!(draws[1].text, "Taipei");
    assert_eq!((draws[1].x, draws[1].y), (10, 690));
    assert_eq!(draws[3].text, "87%");
    assert_eq!((draws[3].x, draws[3].y), (590, 530));
    assert_eq!(draws[4].text, "25℃");
    assert_eq!(draws[5].text, "Rainy");
    // The left block darkens the bottom-left corner; the right block the
    // bottom-right; between them the base shows through.
    let blended = Rgba { r: 41, g: 41, b: 41, a: 255 };
    assert_eq!(canvas.get(5, 700), blended);
    assert_eq!(canvas.get(700, 600), blended);
    assert_eq!(canvas.get(400, 700), gray());
}

#[test]
fn fixed_decimal_rendering() {
    assert_eq!(udec_string(0), "0");
    assert_eq!(udec_string(907), "907");
    assert_eq!(fixed_string(&Fixed::from_int(25)), "25");
    assert_eq!(fixed_string(&Fixed::from_tenths(255)), "25.5");
    assert_eq!(fixed_string(&Fixed::from_tenths(-35)), "-3.5");
    assert_eq!(fixed_string(&Fixed::from_tenths(-30)), "-3");
}
