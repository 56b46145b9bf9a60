//! The canvas: a mutable 2-D RGBA pixel buffer, with "over" compositing of
//! rectangular patches at integer offsets, clipping silently at the edges.

use vstd::prelude::*;
use vstd::arithmetic::div_mod::{
    lemma_fundamental_div_mod, lemma_fundamental_div_mod_converse, lemma_mod_bound,
    lemma_multiply_divide_lt,
};
use vstd::arithmetic::mul::{lemma_mul_inequality, lemma_mul_upper_bound};
use crate::color::{blend, lemma_blend_transparent, spec_blend, Rgba};

verus! {

/// A pixel buffer of `width * height` RGBA cells in row-major order.
///
/// A `Canvas` serves both as the mutable target of a render and as a patch
/// composited onto another canvas: a translucent panel is a uniform canvas,
/// an icon is a small canvas decoded by the caller.
#[derive(Clone, Debug)]
pub struct Canvas {
    pub width: u32,
    pub height: u32,
    pub pixels: Vec<Rgba>,
}

/// Every cell of a `w` by `h` grid holds `fill`.
pub open spec fn uniform_pixels(w: int, h: int, fill: Rgba) -> Seq<Rgba> {
    Seq::new((w * h) as nat, |k: int| fill)
}

/// Cell `k` (row-major) of the `w` by `h` buffer `bottom` after
/// compositing the `tw` by `th` patch `top` over it with its top-left
/// corner at `(x, y)`: a cell the patch covers is blended, every other cell
/// is untouched. Patch cells that fall outside the canvas are clipped away
/// by construction, since only cells of `bottom` are enumerated.
pub open spec fn overlay_pixel(
    bottom: Seq<Rgba>,
    w: int,
    top: Seq<Rgba>,
    tw: int,
    th: int,
    x: int,
    y: int,
    k: int,
) -> Rgba {
    let i = k % w;
    let j = k / w;
    if x <= i < x + tw && y <= j < y + th {
        spec_blend(bottom[k], top[(j - y) * tw + (i - x)])
    } else {
        bottom[k]
    }
}

/// The whole pixel buffer after compositing the `tw` by `th` patch `top`
/// over the `w` by `h` buffer `bottom` at `(x, y)`.
pub open spec fn overlay_pixels(
    bottom: Seq<Rgba>,
    w: int,
    h: int,
    top: Seq<Rgba>,
    tw: int,
    th: int,
    x: int,
    y: int,
) -> Seq<Rgba> {
    Seq::new(bottom.len(), |k: int| overlay_pixel(bottom, w, top, tw, th, x, y, k))
}

/// Cell `k` after the compositing loop has blended the patch rows before
/// `rows` wholly, and, on row `rows`, the cells before `cols`.
spec fn overlay_pixel_upto(
    bottom: Seq<Rgba>,
    w: int,
    top: Seq<Rgba>,
    tw: int,
    th: int,
    x: int,
    y: int,
    rows: int,
    cols: int,
    k: int,
) -> Rgba {
    let i = k % w;
    let j = k / w;
    let pi = i - x;
    let pj = j - y;
    if 0 <= pi < tw && 0 <= pj < th && (pj < rows || (pj == rows && pi < cols)) {
        spec_blend(bottom[k], top[pj * tw + pi])
    } else {
        bottom[k]
    }
}

/// Every pixel of the patch is fully transparent.
pub open spec fn fully_transparent(top: Seq<Rgba>) -> bool {
    forall|k: int| 0 <= k < top.len() ==> (#[trigger] top[k]).a == 0
}

/// Row-major indexing: cell `(i, j)` of a `w` by `h` grid lives at
/// `j * w + i`, within bounds, and the index determines the cell.
proof fn lemma_cell_index(w: int, h: int, i: int, j: int)
    requires
        0 <= i < w,
        0 <= j < h,
    ensures
        0 <= j * w + i < w * h,
        (j * w + i) % w == i,
        (j * w + i) / w == j,
{
    lemma_fundamental_div_mod_converse(j * w + i, w, j, i);
    lemma_mul_inequality(j, h - 1, w);
    assert((h - 1) * w + w == w * h) by (nonlinear_arith);
    assert(j * w >= 0) by (nonlinear_arith)
        requires
            j >= 0,
            w > 0,
    ;
}

/// A cell index below `w * h` decodes to coordinates inside the grid.
proof fn lemma_index_cell(w: int, h: int, k: int)
    requires
        w > 0,
        0 <= k < w * h,
    ensures
        0 <= k % w < w,
        0 <= k / w < h,
        k == (k / w) * w + (k % w),
{
    lemma_mod_bound(k, w);
    lemma_multiply_divide_lt(k, w, h);
    assert(w * h == h * w) by (nonlinear_arith);
    lemma_fundamental_div_mod(k, w);
    vstd::arithmetic::div_mod::lemma_div_pos_is_pos(k, w);
}

impl Canvas {
    /// The buffer holds exactly one pixel for each cell of the grid.
    pub open spec fn wf(self) -> bool {
        self.pixels@.len() == self.width as int * self.height as int
    }

    /// The pixel at cell `(i, j)`.
    pub open spec fn pix(self, i: int, j: int) -> Rgba {
        self.pixels@[j * self.width as int + i]
    }

    /// A canvas whose every pixel is `fill`: the shape of a solid-color
    /// translucent panel before it is composited.
    pub fn uniform(width: u32, height: u32, fill: Rgba) -> (c: Canvas)
        requires
            width as int * height as int <= usize::MAX as int,
        ensures
            c.wf(),
            c.width == width,
            c.height == height,
            c.pixels@ == uniform_pixels(width as int, height as int, fill),
    {
        proof {
            lemma_mul_upper_bound(width as int, u32::MAX as int, height as int, u32::MAX as int);
        }
        let n: usize = ((width as u64) * (height as u64)) as usize;
        let mut pixels: Vec<Rgba> = Vec::new();
        let mut k: usize = 0;
        while k < n
            invariant
                k <= n,
                n == width as int * height as int,
                pixels@.len() == k,
                forall|m: int| 0 <= m < k ==> pixels@[m] == fill,
            decreases n - k,
        {
            pixels.push(fill);
            k += 1;
        }
        let c = Canvas { width, height, pixels };
        proof {
            assert(c.pixels@ =~= uniform_pixels(width as int, height as int, fill));
        }
        c
    }

    /// A canvas over a caller-supplied pixel buffer, such as a decoded base
    /// photograph or icon bitmap.
    pub fn from_pixels(width: u32, height: u32, pixels: Vec<Rgba>) -> (c: Canvas)
        requires
            pixels@.len() == width as int * height as int,
        ensures
            c.wf(),
            c.width == width,
            c.height == height,
            c.pixels@ == pixels@,
    {
        Canvas { width, height, pixels }
    }

    /// Read the pixel at `(x, y)`.
    pub fn get(&self, x: u32, y: u32) -> (p: Rgba)
        requires
            self.wf(),
            x < self.width,
            y < self.height,
        ensures
            p == self.pix(x as int, y as int),
    {
        let n = self.pixels.len();
        proof {
            lemma_cell_index(self.width as int, self.height as int, x as int, y as int);
            assert((y as int) * (self.width as int) + (x as int) < (n as int));
        }
        let idx: usize = ((y as u64) * (self.width as u64) + (x as u64)) as usize;
        self.pixels[idx]
    }

    /// Composite `top` over this canvas with its top-left corner at
    /// `(x, y)`, blending pixel by pixel and silently clipping whatever
    /// part of the patch falls outside the canvas.
    pub fn overlay(&mut self, top: &Canvas, x: u32, y: u32)
        requires
            old(self).wf(),
            top.wf(),
        ensures
            final(self).width == old(self).width,
            final(self).height == old(self).height,
            final(self).wf(),
            final(self).pixels@ == overlay_pixels(
                old(self).pixels@,
                old(self).width as int,
                old(self).height as int,
                top.pixels@,
                top.width as int,
                top.height as int,
                x as int,
                y as int,
            ),
    {
        let w = self.width;
        let h = self.height;
        let n = self.pixels.len();
        let mut py: u32 = 0;
        while py < top.height
            invariant
                self.width == old(self).width,
                self.height == old(self).height,
                self.wf(),
                top.wf(),
                w == self.width,
                h == self.height,
                n == self.pixels@.len(),
                self.pixels@.len() == old(self).pixels@.len(),
                py <= top.height,
                forall|k: int|
                    0 <= k < self.pixels@.len() ==> self.pixels@[k] == overlay_pixel_upto(
                        old(self).pixels@,
                        w as int,
                        top.pixels@,
                        top.width as int,
                        top.height as int,
                        x as int,
                        y as int,
                        py as int,
                        0,
                        k,
                    ),
            decreases top.height - py,
        {
            let mut px: u32 = 0;
            while px < top.width
                invariant
                    self.width == old(self).width,
                    self.height == old(self).height,
                    self.wf(),
                    top.wf(),
                    w == self.width,
                    h == self.height,
                    n == self.pixels@.len(),
                    self.pixels@.len() == old(self).pixels@.len(),
                    py < top.height,
                    px <= top.width,
                    forall|k: int|
                        0 <= k < self.pixels@.len() ==> self.pixels@[k] == overlay_pixel_upto(
                            old(self).pixels@,
                            w as int,
                            top.pixels@,
                            top.width as int,
                            top.height as int,
                            x as int,
                            y as int,
                            py as int,
                            px as int,
                            k,
                        ),
                decreases top.width - px,
            {
                let cx: u64 = x as u64 + px as u64;
                let cy: u64 = y as u64 + py as u64;
                if cx < w as u64 && cy < h as u64 {
                    proof {
                        lemma_cell_index(w as int, h as int, cx as int, cy as int);
                        lemma_cell_index(
                            top.width as int,
                            top.height as int,
                            px as int,
                            py as int,
                        );
                        assert((cy as int) * (w as int) + (cx as int) < (n as int));
                    }
                    let idx: usize = (cy * (w as u64) + cx) as usize;
                    let bgp = self.pixels[idx];
                    let fgp = top.get(px, py);
                    let newp = blend(bgp, fgp);
                    self.pixels.set(idx, newp);
                    proof {
                        assert forall|k: int| 0 <= k < self.pixels@.len() implies self.pixels@[k]
                            == overlay_pixel_upto(
                            old(self).pixels@,
                            w as int,
                            top.pixels@,
                            top.width as int,
                            top.height as int,
                            x as int,
                            y as int,
                            py as int,
                            px as int + 1,
                            k,
                        ) by {
                            lemma_upto_step(
                                old(self).pixels@,
                                w as int,
                                h as int,
                                top.pixels@,
                                top.width as int,
                                top.height as int,
                                x as int,
                                y as int,
                                py as int,
                                px as int,
                                k,
                            );
                        }
                    }
                } else {
                    proof {
                        assert forall|k: int| 0 <= k < self.pixels@.len() implies self.pixels@[k]
                            == overlay_pixel_upto(
                            old(self).pixels@,
                            w as int,
                            top.pixels@,
                            top.width as int,
                            top.height as int,
                            x as int,
                            y as int,
                            py as int,
                            px as int + 1,
                            k,
                        ) by {
                            lemma_upto_step(
                                old(self).pixels@,
                                w as int,
                                h as int,
                                top.pixels@,
                                top.width as int,
                                top.height as int,
                                x as int,
                                y as int,
                                py as int,
                                px as int,
                                k,
                            );
                        }
                    }
                }
                px += 1;
            }
            proof {
                assert forall|k: int| 0 <= k < self.pixels@.len() implies overlay_pixel_upto(
                    old(self).pixels@,
                    w as int,
                    top.pixels@,
                    top.width as int,
                    top.height as int,
                    x as int,
                    y as int,
                    py as int,
                    top.width as int,
                    k,
                ) == overlay_pixel_upto(
                    old(self).pixels@,
                    w as int,
                    top.pixels@,
                    top.width as int,
                    top.height as int,
                    x as int,
                    y as int,
                    py as int + 1,
                    0,
                    k,
                ) by {}
            }
            py += 1;
        }
        proof {
            assert(self.pixels@ =~= overlay_pixels(
                old(self).pixels@,
                old(self).width as int,
                old(self).height as int,
                top.pixels@,
                top.width as int,
                top.height as int,
                x as int,
                y as int,
            ));
        }
    }
}

/// One step of the compositing loop: blending patch cell `(px, py)` turns
/// the partially composited buffer for `(py, px)` into the one for
/// `(py, px + 1)`, and touches exactly the cell the patch covers, if that
/// cell lies on the canvas at all.
proof fn lemma_upto_step(
    bottom: Seq<Rgba>,
    w: int,
    h: int,
    top: Seq<Rgba>,
    tw: int,
    th: int,
    x: int,
    y: int,
    py: int,
    px: int,
    k: int,
)
    requires
        bottom.len() == w * h,
        top.len() == tw * th,
        w >= 0,
        h >= 0,
        0 <= k < bottom.len(),
        0 <= px < tw,
        0 <= py < th,
    ensures
        x + px >= 0 && y + py >= 0 && x + px < w && y + py < h && k == (y + py) * w + (x + px)
            ==> overlay_pixel_upto(bottom, w, top, tw, th, x, y, py, px, k) == bottom[k]
            && overlay_pixel_upto(bottom, w, top, tw, th, x, y, py, px + 1, k) == spec_blend(
            bottom[k],
            top[py * tw + px],
        ),
        !(x + px >= 0 && y + py >= 0 && x + px < w && y + py < h && k == (y + py) * w + (x + px))
            ==> overlay_pixel_upto(bottom, w, top, tw, th, x, y, py, px + 1, k)
            == overlay_pixel_upto(bottom, w, top, tw, th, x, y, py, px, k),
{
    assert(w * h > 0);
    assert(w > 0 && h > 0) by (nonlinear_arith)
        requires
            w * h > 0,
            w >= 0,
            h >= 0,
    ;
    lemma_index_cell(w, h, k);
    if 0 <= x + px < w && 0 <= y + py < h && k == (y + py) * w + (x + px) {
        lemma_fundamental_div_mod_converse(k, w, y + py, x + px);
    }
}

/// Overlaying a fully transparent patch leaves the canvas pixel for pixel
/// unchanged: compositing is idempotent under a no-op overlay.
pub proof fn lemma_overlay_transparent_noop(
    bottom: Seq<Rgba>,
    w: int,
    h: int,
    top: Seq<Rgba>,
    tw: int,
    th: int,
    x: int,
    y: int,
)
    requires
        bottom.len() == w * h,
        top.len() == tw * th,
        w >= 0,
        h >= 0,
        fully_transparent(top),
    ensures
        overlay_pixels(bottom, w, h, top, tw, th, x, y) == bottom,
{
    assert forall|k: int| 0 <= k < bottom.len() implies overlay_pixel(
        bottom,
        w,
        top,
        tw,
        th,
        x,
        y,
        k,
    ) == bottom[k] by {
        assert(w > 0 && h > 0) by (nonlinear_arith)
            requires
                w * h > 0,
                w >= 0,
                h >= 0,
        ;
        lemma_index_cell(w, h, k);
        let i = k % w;
        let j = k / w;
        if x <= i < x + tw && y <= j < y + th {
            lemma_cell_index(tw, th, i - x, j - y);
            lemma_blend_transparent(bottom[k], top[(j - y) * tw + (i - x)]);
        }
    }
    assert(overlay_pixels(bottom, w, h, top, tw, th, x, y) =~= bottom);
}

} // verus!
