//! Checks of the glyph measurement: empty and whitespace-only runs, box
//! aggregation, negative bearings, and monotonicity under concatenation.

use weather_card::glyphs::{measure, GlyphBox};

#[test]
fn measure_empty_run_is_zero() {
    let run: Vec<Option<GlyphBox>> = Vec::new();
    assert_eq!(measure(&run), 0);
}

#[test]
fn measure_whitespace_only_is_zero() {
    let run = vec![None, None, None];
    assert_eq!(measure(&run), 0);
}

#[test]
fn measure_single_glyph() {
    let run = vec![Some(GlyphBox { left: 3, right: 27 })];
    assert_eq!(measure(&run), 24);
}

#[test]
fn measure_aggregates_outermost_edges() {
    let run = vec![
        Some(GlyphBox { left: 2, right: 28 }),
        None,
        Some(GlyphBox { left: 62, right: 88 }),
        Some(GlyphBox { left: 92, right: 118 }),
    ];
    assert_eq!(measure(&run), 116);
}

#[test]
fn measure_handles_negative_bearing() {
    let run = vec![
        Some(GlyphBox { left: -4, right: 20 }),
        Some(GlyphBox { left: 30, right: 56 }),
    ];
    assert_eq!(measure(&run), 60);
}

#[test]
fn measure_prefix_never_wider() {
    let boxes: Vec<Option<GlyphBox>> = (0..40)
        .map(|i| {
            if i % 5 == 4 {
                None
            } else {
                Some(GlyphBox { left: i * 30, right: i * 30 + 24 })
            }
        })
        .collect();
    let mut previous = 0;
    for n in 0..=boxes.len() {
        let prefix: Vec<Option<GlyphBox>> = boxes[..n].to_vec();
        let w = measure(&prefix);
        assert!(w >= previous, "width shrank on a longer prefix");
        previous = w;
    }
}
