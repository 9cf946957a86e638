//! Axis-aligned rectangles and the closed-interval overlap test used for
//! collision detection: rectangles whose edges merely touch still count
//! as overlapping.

use vstd::prelude::*;

verus! {

/// An axis-aligned box. Coordinates may be negative; width and height are
/// non-negative by construction.
#[derive(Clone, Copy, PartialEq, Eq, Structural, Debug)]
pub struct Rect {
    pub x: i32,
    pub y: i32,
    pub w: u32,
    pub h: u32,
}

/// Two closed intervals `[a_lo, a_lo + a_len]` and `[b_lo, b_lo + b_len]`
/// intersect.
pub open spec fn spans_overlap(a_lo: int, a_len: int, b_lo: int, b_len: int) -> bool {
    !(a_lo + a_len < b_lo || a_lo > b_lo + b_len)
}

/// A `w` by `h` box whose top-left corner sits at `(x, y)` overlaps `b`:
/// the boxes intersect on both axes, edge contact included.
pub open spec fn overlaps_at(x: int, y: int, w: int, h: int, b: Rect) -> bool {
    spans_overlap(y, h, b.y as int, b.h as int) && spans_overlap(x, w, b.x as int, b.w as int)
}

/// Rectangle `a` overlaps rectangle `b`.
pub open spec fn overlaps_spec(a: Rect, b: Rect) -> bool {
    overlaps_at(a.x as int, a.y as int, a.w as int, a.h as int, b)
}

impl Rect {
    pub fn new(x: i32, y: i32, w: u32, h: u32) -> (r: Rect)
        ensures
            r == (Rect { x, y, w, h }),
    {
        Rect { x, y, w, h }
    }
}

/// Two rectangles overlap unless one lies strictly above, below, left of,
/// or right of the other; comparisons are on closed edges, so touching
/// edges count as overlap.
pub fn overlaps(a: &Rect, b: &Rect) -> (r: bool)
    ensures
        r == overlaps_spec(*a, *b),
{
    let a_bottom: i64 = a.y as i64 + a.h as i64;
    let b_bottom: i64 = b.y as i64 + b.h as i64;
    let a_right: i64 = a.x as i64 + a.w as i64;
    let b_right: i64 = b.x as i64 + b.w as i64;
    if a_bottom < b.y as i64 || (a.y as i64) > b_bottom || a_right < (b.x as i64)
        || (a.x as i64) > b_right {
        false
    } else {
        true
    }
}

/// Overlap is symmetric: testing `a` against `b` and `b` against `a`
/// always agree.
pub proof fn lemma_overlaps_symmetric(a: Rect, b: Rect)
    ensures
        overlaps_spec(a, b) == overlaps_spec(b, a),
{
}

/// Overlap is reflexive: every rectangle overlaps itself.
pub proof fn lemma_overlaps_reflexive(a: Rect)
    ensures
        overlaps_spec(a, a),
{
}

/// Rectangles separated entirely along either axis do not overlap.
pub proof fn lemma_overlaps_separated(a: Rect, b: Rect)
    requires
        a.x + a.w < b.x || b.x + b.w < a.x || a.y + a.h < b.y || b.y + b.h < a.y,
    ensures
        !overlaps_spec(a, b),
{
}

} // verus!
