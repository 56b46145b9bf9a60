//! RGBA colors and "over" alpha blending on 8-bit channels.

use vstd::prelude::*;
use vstd::arithmetic::div_mod::{lemma_div_is_ordered, lemma_div_multiples_vanish};
use vstd::arithmetic::mul::{lemma_mul_inequality, lemma_mul_upper_bound};

verus! {

/// One pixel: red, green, blue and alpha, each an 8-bit channel.
#[derive(Clone, Copy, PartialEq, Eq, Structural, Debug)]
pub struct Rgba {
    pub r: u8,
    pub g: u8,
    pub b: u8,
    pub a: u8,
}

/// Alpha of the "over" blend of a foreground with alpha `fg_a` onto a
/// background with alpha `bg_a` (all channels on the 0..=255 scale).
pub open spec fn spec_blend_alpha(bg_a: int, fg_a: int) -> int {
    fg_a + bg_a * (255 - fg_a) / 255
}

/// One color channel of the "over" blend, in straight (non-premultiplied)
/// alpha. When both alphas are zero the background channel is kept, so a
/// fully transparent foreground never disturbs the background.
pub open spec fn spec_blend_channel(bg_c: int, bg_a: int, fg_c: int, fg_a: int) -> int {
    let num = fg_c * fg_a * 255 + bg_c * bg_a * (255 - fg_a);
    let den = fg_a * 255 + bg_a * (255 - fg_a);
    if den == 0 {
        bg_c
    } else {
        num / den
    }
}

/// The "over" blend of `fg` onto `bg`, channel by channel.
pub open spec fn spec_blend(bg: Rgba, fg: Rgba) -> Rgba {
    Rgba {
        r: spec_blend_channel(bg.r as int, bg.a as int, fg.r as int, fg.a as int) as u8,
        g: spec_blend_channel(bg.g as int, bg.a as int, fg.g as int, fg.a as int) as u8,
        b: spec_blend_channel(bg.b as int, bg.a as int, fg.b as int, fg.a as int) as u8,
        a: spec_blend_alpha(bg.a as int, fg.a as int) as u8,
    }
}

/// The blended channel stays on the 0..=255 scale.
pub proof fn lemma_blend_channel_bounds(bg_c: int, bg_a: int, fg_c: int, fg_a: int)
    requires
        0 <= bg_c <= 255,
        0 <= bg_a <= 255,
        0 <= fg_c <= 255,
        0 <= fg_a <= 255,
    ensures
        0 <= spec_blend_channel(bg_c, bg_a, fg_c, fg_a) <= 255,
{
    let inv = 255 - fg_a;
    let num = fg_c * fg_a * 255 + bg_c * bg_a * inv;
    let den = fg_a * 255 + bg_a * inv;
    if den != 0 {
        lemma_mul_inequality(fg_c, 255, fg_a * 255);
        lemma_mul_inequality(bg_c, 255, bg_a * inv);
        assert(fg_c * fg_a * 255 == fg_c * (fg_a * 255)) by (nonlinear_arith);
        assert(bg_c * bg_a * inv == bg_c * (bg_a * inv)) by (nonlinear_arith);
        assert(num <= 255 * den) by (nonlinear_arith)
            requires
                fg_c * (fg_a * 255) <= 255 * (fg_a * 255),
                bg_c * (bg_a * inv) <= 255 * (bg_a * inv),
                num == fg_c * (fg_a * 255) + bg_c * (bg_a * inv),
                den == fg_a * 255 + bg_a * inv,
        ;
        assert(den > 0) by (nonlinear_arith)
            requires
                den == fg_a * 255 + bg_a * inv,
                0 <= fg_a,
                0 <= bg_a,
                0 <= inv,
                den != 0,
        ;
        lemma_div_is_ordered(num, 255 * den, den);
        lemma_div_multiples_vanish(255, den);
        assert(num >= 0) by (nonlinear_arith)
            requires
                0 <= fg_c && 0 <= fg_a && 0 <= bg_c && 0 <= bg_a && 0 <= inv,
                num == fg_c * fg_a * 255 + bg_c * bg_a * inv,
        ;
        assert(num / den >= 0) by {
            vstd::arithmetic::div_mod::lemma_div_pos_is_pos(num, den);
        }
    }
}

/// The blended alpha stays on the 0..=255 scale.
pub proof fn lemma_blend_alpha_bounds(bg_a: int, fg_a: int)
    requires
        0 <= bg_a <= 255,
        0 <= fg_a <= 255,
    ensures
        0 <= spec_blend_alpha(bg_a, fg_a) <= 255,
{
    let inv = 255 - fg_a;
    lemma_mul_inequality(bg_a, 255, inv);
    lemma_div_is_ordered(bg_a * inv, 255 * inv, 255);
    lemma_div_multiples_vanish(inv, 255);
    assert(bg_a * inv >= 0) by (nonlinear_arith)
        requires
            0 <= bg_a,
            0 <= inv,
    ;
    vstd::arithmetic::div_mod::lemma_div_pos_is_pos(bg_a * inv, 255);
}

/// A fully transparent foreground leaves the background pixel exactly as it
/// was: blending is a no-op for alpha zero.
pub proof fn lemma_blend_transparent(bg: Rgba, fg: Rgba)
    requires
        fg.a == 0,
    ensures
        spec_blend(bg, fg) == bg,
{
    let a = bg.a as int;
    assert(spec_blend_alpha(a, 0) == a) by {
        lemma_div_multiples_vanish(a, 255);
        assert(a * 255 == 255 * a) by (nonlinear_arith);
    }
    lemma_blend_transparent_channel(bg.r as int, a, fg.r as int);
    lemma_blend_transparent_channel(bg.g as int, a, fg.g as int);
    lemma_blend_transparent_channel(bg.b as int, a, fg.b as int);
}

proof fn lemma_blend_transparent_channel(bg_c: int, bg_a: int, fg_c: int)
    requires
        0 <= bg_c <= 255,
        0 <= bg_a <= 255,
    ensures
        spec_blend_channel(bg_c, bg_a, fg_c, 0) == bg_c,
{
    let den = bg_a * 255;
    if den != 0 {
        let num = bg_c * bg_a * 255;
        assert(num == den * bg_c) by (nonlinear_arith)
            requires
                num == bg_c * bg_a * 255,
                den == bg_a * 255,
        ;
        assert(den > 0) by (nonlinear_arith)
            requires
                den == bg_a * 255,
                0 <= bg_a,
                den != 0,
        ;
        lemma_div_multiples_vanish(bg_c, den);
    }
}

/// Blend `fg` over `bg` in straight alpha on 8-bit channels.
pub fn blend(bg: Rgba, fg: Rgba) -> (r: Rgba)
    ensures
        r == spec_blend(bg, fg),
{
    let inv: u32 = 255 - (fg.a as u32);
    proof {
        lemma_mul_upper_bound(bg.a as int, 255, inv as int, 255);
        lemma_blend_alpha_bounds(bg.a as int, fg.a as int);
    }
    let den: u32 = (fg.a as u32) * 255 + (bg.a as u32) * inv;
    let out_a: u32 = (fg.a as u32) + (bg.a as u32) * inv / 255;
    let out_r = blend_channel(bg.r, fg.r, bg.a, fg.a, inv, den);
    let out_g = blend_channel(bg.g, fg.g, bg.a, fg.a, inv, den);
    let out_b = blend_channel(bg.b, fg.b, bg.a, fg.a, inv, den);
    Rgba { r: out_r, g: out_g, b: out_b, a: out_a as u8 }
}

fn blend_channel(bg_c: u8, fg_c: u8, bg_a: u8, fg_a: u8, inv: u32, den: u32) -> (r: u8)
    requires
        inv == 255 - fg_a,
        den == fg_a * 255 + bg_a * inv,
    ensures
        r == spec_blend_channel(bg_c as int, bg_a as int, fg_c as int, fg_a as int),
{
    proof {
        lemma_blend_channel_bounds(bg_c as int, bg_a as int, fg_c as int, fg_a as int);
        lemma_mul_upper_bound(fg_c as int, 255, fg_a as int, 255);
        lemma_mul_upper_bound(fg_c as int * fg_a as int, 65025, 255, 255);
        lemma_mul_upper_bound(bg_c as int, 255, bg_a as int, 255);
        lemma_mul_upper_bound(bg_c as int * bg_a as int, 65025, inv as int, 255);
    }
    if den == 0 {
        bg_c
    } else {
        let num: u32 = (fg_c as u32) * (fg_a as u32) * 255 + (bg_c as u32) * (bg_a as u32) * inv;
        (num / den) as u8
    }
}

} // verus!
