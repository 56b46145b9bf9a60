//! Glyph metrics: the horizontal pixel extent a laid-out string occupies.
//!
//! A string laid out at a pixel height becomes a run of glyphs, each either
//! inked, with a horizontal bounding box, or blank (spaces and other glyphs
//! with no ink). The caller obtains the run from its font rasterizer; the
//! measurement itself, the aggregation of the boxes, is verified here: the
//! width is the maximum right edge minus the minimum left edge over the
//! inked glyphs, and zero when no glyph has ink.

use vstd::prelude::*;
use vstd::math::{max, min};

verus! {

/// The horizontal extent of one glyph's ink, in pixels.
#[derive(Clone, Copy, PartialEq, Eq, Structural, Debug)]
pub struct GlyphBox {
    pub left: i32,
    pub right: i32,
}

/// Every inked glyph of the run has a box that does not end before it
/// starts.
pub open spec fn run_wf(s: Seq<Option<GlyphBox>>) -> bool {
    forall|i: int|
        0 <= i < s.len() ==> ((#[trigger] s[i]) matches Some(b) ==> b.left <= b.right)
}

/// Some glyph of the run has ink.
pub open spec fn has_ink(s: Seq<Option<GlyphBox>>) -> bool {
    exists|i: int| 0 <= i < s.len() && (#[trigger] s[i]) is Some
}

/// The least left edge over the inked glyphs (meaningful only when the run
/// has ink).
pub open spec fn min_left(s: Seq<Option<GlyphBox>>) -> int
    decreases s.len(),
{
    if s.len() == 0 {
        0
    } else {
        match s.last() {
            Some(b) => if has_ink(s.drop_last()) {
                min(min_left(s.drop_last()), b.left as int)
            } else {
                b.left as int
            },
            None => min_left(s.drop_last()),
        }
    }
}

/// The greatest right edge over the inked glyphs (meaningful only when the
/// run has ink).
pub open spec fn max_right(s: Seq<Option<GlyphBox>>) -> int
    decreases s.len(),
{
    if s.len() == 0 {
        0
    } else {
        match s.last() {
            Some(b) => if has_ink(s.drop_last()) {
                max(max_right(s.drop_last()), b.right as int)
            } else {
                b.right as int
            },
            None => max_right(s.drop_last()),
        }
    }
}

/// The measured width of a run: the extent between the outermost inked
/// edges, and zero for a run with no ink at all.
pub open spec fn run_width(s: Seq<Option<GlyphBox>>) -> int {
    if has_ink(s) {
        max_right(s) - min_left(s)
    } else {
        0
    }
}

/// A run extended by one glyph has ink exactly when the run had ink or the
/// new glyph is inked.
proof fn lemma_has_ink_push(u: Seq<Option<GlyphBox>>, g: Option<GlyphBox>)
    ensures
        has_ink(u.push(g)) == (has_ink(u) || g is Some),
{
    if g is Some {
        assert(u.push(g)[u.len() as int] is Some);
    }
    if has_ink(u) {
        let i = choose|i: int| 0 <= i < u.len() && u[i] is Some;
        assert(u.push(g)[i] is Some);
    }
    if has_ink(u.push(g)) && !(g is Some) {
        let i = choose|i: int| 0 <= i < u.push(g).len() && u.push(g)[i] is Some;
        assert(0 <= i < u.len() && u[i] is Some);
    }
}

/// On a well-formed run with ink, the outermost edges are ordered, so the
/// measured width can never be negative.
proof fn lemma_edges_ordered(s: Seq<Option<GlyphBox>>)
    requires
        run_wf(s),
        has_ink(s),
    ensures
        min_left(s) <= max_right(s),
    decreases s.len(),
{
    let d = s.drop_last();
    assert(run_wf(d));
    match s.last() {
        Some(b) => {
            assert(b.left <= b.right);
            if has_ink(d) {
                lemma_edges_ordered(d);
            }
        },
        None => {
            let i = choose|i: int| 0 <= i < s.len() && s[i] is Some;
            assert(0 <= i < d.len() && d[i] is Some);
            assert(has_ink(d));
            lemma_edges_ordered(d);
        },
    }
}

/// For every well-formed run the measured width is non-negative, and a run
/// with no ink, such as an empty string or one of only whitespace, measures
/// exactly zero.
pub proof fn lemma_measure_nonneg(s: Seq<Option<GlyphBox>>)
    requires
        run_wf(s),
    ensures
        run_width(s) >= 0,
        !has_ink(s) ==> run_width(s) == 0,
{
    if has_ink(s) {
        lemma_edges_ordered(s);
    }
}

/// Extending a run by one glyph can only move the outermost edges outwards.
proof fn lemma_push_monotone(u: Seq<Option<GlyphBox>>, g: Option<GlyphBox>)
    requires
        run_wf(u),
        g matches Some(b) ==> b.left <= b.right,
    ensures
        run_width(u) <= run_width(u.push(g)),
{
    let p = u.push(g);
    assert(p.drop_last() =~= u);
    assert(p.last() == g);
    lemma_has_ink_push(u, g);
    lemma_measure_nonneg(u);
    assert(run_wf(p));
    lemma_measure_nonneg(p);
    if has_ink(u) {
        match g {
            Some(b) => {
                assert(min_left(p) == min(min_left(u), b.left as int));
                assert(max_right(p) == max(max_right(u), b.right as int));
            },
            None => {
                assert(min_left(p) == min_left(u));
                assert(max_right(p) == max_right(u));
            },
        }
    }
}

/// Measuring is monotonic under concatenation: a prefix of a run never
/// measures wider than the whole run. For text this says that a string laid
/// out as a prefix of a longer one cannot exceed the longer one's width.
pub proof fn lemma_measure_prefix_monotone(s: Seq<Option<GlyphBox>>, t: Seq<Option<GlyphBox>>)
    requires
        run_wf(s),
        run_wf(t),
    ensures
        run_width(s) <= run_width(s + t),
    decreases t.len(),
{
    if t.len() == 0 {
        assert(s + t =~= s);
    } else {
        let d = t.drop_last();
        assert(run_wf(d));
        lemma_measure_prefix_monotone(s, d);
        assert(run_wf(s + d)) by {
            assert forall|i: int| 0 <= i < (s + d).len() implies ((#[trigger] (s + d)[i]) matches
                Some(b) ==> b.left <= b.right) by {
                if i < s.len() {
                    assert((s + d)[i] == s[i]);
                } else {
                    assert((s + d)[i] == d[i - s.len()]);
                }
            }
        }
        lemma_push_monotone(s + d, t.last());
        assert((s + d).push(t.last()) =~= s + t);
    }
}

/// Measure a glyph run: the extent between the outermost inked edges, or
/// zero when nothing in the run has ink.
pub fn measure(run: &Vec<Option<GlyphBox>>) -> (w: u32)
    requires
        run_wf(run@),
    ensures
        w == run_width(run@),
{
    let n = run.len();
    let mut found = false;
    let mut lo: i32 = 0;
    let mut hi: i32 = 0;
    let mut idx: usize = 0;
    while idx < n
        invariant
            n == run@.len(),
            idx <= n,
            run_wf(run@),
            found == has_ink(run@.take(idx as int)),
            found ==> lo as int == min_left(run@.take(idx as int)) && hi as int == max_right(
                run@.take(idx as int),
            ) && lo <= hi,
        decreases n - idx,
    {
        let g = run[idx];
        proof {
            let u = run@.take(idx as int);
            assert(run@.take(idx as int + 1).drop_last() =~= u);
            assert(run@.take(idx as int + 1).last() == run@[idx as int]);
            lemma_has_ink_push(u, run@[idx as int]);
            assert(run@.take(idx as int + 1) =~= u.push(run@[idx as int]));
            if found {
                lemma_edges_ordered_take(run@, idx as int);
            }
        }
        match g {
            Some(b) => {
                if !found {
                    found = true;
                    lo = b.left;
                    hi = b.right;
                } else {
                    if b.left < lo {
                        lo = b.left;
                    }
                    if b.right > hi {
                        hi = b.right;
                    }
                }
            },
            None => {},
        }
        idx += 1;
    }
    proof {
        assert(run@.take(n as int) =~= run@);
        lemma_measure_nonneg(run@);
    }
    if found {
        ((hi as i64) - (lo as i64)) as u32
    } else {
        0
    }
}

/// Well-formedness restricted to a prefix keeps the edges ordered.
proof fn lemma_edges_ordered_take(s: Seq<Option<GlyphBox>>, n: int)
    requires
        run_wf(s),
        0 <= n <= s.len(),
        has_ink(s.take(n)),
    ensures
        min_left(s.take(n)) <= max_right(s.take(n)),
{
    assert(run_wf(s.take(n)));
    lemma_edges_ordered(s.take(n));
}

} // verus!
