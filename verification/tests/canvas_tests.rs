//! Checks of the canvas compositor: uniform fills, the blend formula, the
//! no-op of a fully transparent overlay, and silent clipping at the edges.

use weather_card::canvas::Canvas;
use weather_card::color::{blend, Rgba};

fn gray() -> Rgba {
    Rgba { r: 100, g: 100, b: 100, a: 255 }
}

#[test]
fn uniform_canvas_is_filled() {
    let c = Canvas::uniform(8, 4, gray());
    assert_eq!(c.width, 8);
    assert_eq!(c.height, 4);
    assert_eq!(c.pixels.len(), 32);
    assert_eq!(c.get(0, 0), gray());
    assert_eq!(c.get(7, 3), gray());
}

#[test]
fn blend_opaque_replaces() {
    let fg = Rgba { r: 10, g: 20, b: 30, a: 255 };
    assert_eq!(blend(gray(), fg), fg);
}

#[test]
fn blend_transparent_keeps_background() {
    let fg = Rgba { r: 200, g: 0, b: 50, a: 0 };
    assert_eq!(blend(gray(), fg), gray());
}

#[test]
fn blend_translucent_exact() {
    // num = 0 * 150 * 255 + 100 * 255 * 105 = 2677500
    // den = 150 * 255 + 255 * 105 = 65025, so each channel is 41.
    let fg = Rgba { r: 0, g: 0, b: 0, a: 150 };
    let out = blend(gray(), fg);
    assert_eq!(out, Rgba { r: 41, g: 41, b: 41, a: 255 });
}

#[test]
fn overlay_transparent_patch_is_noop() {
    let mut c = Canvas::uniform(20, 20, gray());
    let before = c.pixels.clone();
    let patch = Canvas::uniform(10, 10, Rgba { r: 255, g: 0, b: 0, a: 0 });
    c.overlay(&patch, 5, 5);
    assert_eq!(c.pixels, before);
}

#[test]
fn overlay_covers_exact_rectangle() {
    let mut c = Canvas::uniform(20, 20, gray());
    let red = Rgba { r: 255, g: 0, b: 0, a: 255 };
    let patch = Canvas::uniform(4, 3, red);
    c.overlay(&patch, 2, 5);
    assert_eq!(c.get(2, 5), red);
    assert_eq!(c.get(5, 7), red);
    assert_eq!(c.get(1, 5), gray());
    assert_eq!(c.get(6, 5), gray());
    assert_eq!(c.get(2, 4), gray());
    assert_eq!(c.get(2, 8), gray());
}

#[test]
fn overlay_clips_beyond_edges_silently() {
    let mut c = Canvas::uniform(10, 10, gray());
    let red = Rgba { r: 255, g: 0, b: 0, a: 255 };
    let patch = Canvas::uniform(6, 6, red);
    c.overlay(&patch, 7, 8);
    assert_eq!(c.get(7, 8), red);
    assert_eq!(c.get(9, 9), red);
    assert_eq!(c.get(6, 8), gray());
    assert_eq!(c.get(7, 7), gray());
}
