//! Checks of the fit validator: the width and value checks, boundary
//! exactness, and the user-facing error messages.

use weather_card::fit::{check_value, check_width, DrawError, Fixed};
use weather_card::glyphs::{measure, GlyphBox};

/// A simple synthetic layout of a string: every non-space character gets a
/// 25-pixel-wide box on a 30-pixel advance, spaces have no ink.
fn run_of(text: &str, advance: i32) -> Vec<Option<GlyphBox>> {
    let mut run = Vec::new();
    for (i, ch) in text.chars().enumerate() {
        let x = (i as i32) * advance;
        if ch == ' ' {
            run.push(None);
        } else {
            run.push(Some(GlyphBox { left: x, right: x + advance - 6 }));
        }
    }
    run
}

#[test]
fn test_check_value_failed() {
    assert!(check_value(Fixed::from_int(120), "temp").is_err());
}

#[test]
fn test_check_value_work() {
    assert!(check_value(Fixed::from_int(100), "temp").is_ok());
}

#[test]
fn test_check_width_failed() {
    let width_limit = 800;
    let width = measure(&run_of("This string is very very very very long!", 30));
    assert!(check_width(width, width_limit, "title").is_err());
}

#[test]
fn test_check_width_work() {
    let width_limit = 800;
    let width = measure(&run_of("This string is short!", 30));
    assert!(check_width(width, width_limit, "title").is_ok());
}

#[test]
fn check_width_boundary_exact() {
    assert!(check_width(500, 500, "title").is_ok());
    match check_width(501, 500, "title") {
        Err(DrawError::WidthTooLong(measured, limit, case)) => {
            assert_eq!(measured, 501);
            assert_eq!(limit, 500);
            assert_eq!(case, "title");
        }
        _ => panic!("expected a width failure"),
    }
}

#[test]
fn check_value_boundary_exact() {
    assert!(check_value(Fixed::from_tenths(1000), "humidity").is_ok());
    match check_value(Fixed::from_tenths(1001), "humidity") {
        Err(DrawError::ValueTooHigh(value, limit, case)) => {
            assert_eq!(value.tenths, 1001);
            assert_eq!(limit.tenths, 1000);
            assert_eq!(case, "humidity");
        }
        _ => panic!("expected a value failure"),
    }
}

#[test]
fn width_error_message_format() {
    let e = check_width(900, 800, "title").unwrap_err();
    assert_eq!(
        e.message(),
        "The width of the 'title' is 900. The max is only 800. Please consider a shorter 'title'."
    );
}

#[test]
fn value_error_message_format() {
    let e = check_value(Fixed::from_int(120), "humidity").unwrap_err();
    assert_eq!(
        e.message(),
        "The value of 'humidity' is 120. The max is only 100. Please give a valid 'humidity'."
    );
}
