//! The frame layout: a one-cell outer margin, a half-and-half horizontal
//! split, and a second one-cell margin inside the right column followed by a
//! vertical split into three near-equal rows.

use vstd::prelude::*;
use crate::geometry::Rect;

verus! {

/// Every region of one frame: the full viewport, the two columns of the
/// margin-inset viewport, and the three rows of the margin-inset right column.
#[derive(Clone, Copy, Debug, PartialEq, Eq, Structural)]
pub struct FrameLayout {
    pub full: Rect,
    pub left: Rect,
    pub right: Rect,
    pub right_top: Rect,
    pub right_middle: Rect,
    pub right_bottom: Rect,
}

/// Split a region into a left and a right column of equal width; when the
/// width is odd, the extra cell goes to the right column, so the two columns
/// always cover the region exactly.
pub open spec fn spec_split_columns(a: Rect) -> (Rect, Rect) {
    let lw = (a.width / 2) as u16;
    (
        Rect { x: a.x, y: a.y, width: lw, height: a.height },
        Rect { x: (a.x + lw) as u16, y: a.y, width: (a.width - lw) as u16, height: a.height },
    )
}

/// Split a region into three stacked rows whose heights differ by at most one
/// cell: each row gets a third of the height, and the remainder is handed out
/// one cell at a time from the top, so the rows always cover the region
/// exactly.
pub open spec fn spec_split_thirds(a: Rect) -> (Rect, Rect, Rect) {
    let q = (a.height / 3) as u16;
    let r = a.height % 3;
    let h0 = if r > 0 { (q + 1) as u16 } else { q };
    let h1 = if r > 1 { (q + 1) as u16 } else { q };
    let h2 = q;
    (
        Rect { x: a.x, y: a.y, width: a.width, height: h0 },
        Rect { x: a.x, y: (a.y + h0) as u16, width: a.width, height: h1 },
        Rect { x: a.x, y: (a.y + h0 + h1) as u16, width: a.width, height: h2 },
    )
}

/// The whole layout as a function of the viewport size alone.
pub open spec fn spec_layout(width: u16, height: u16) -> FrameLayout {
    let full = Rect { x: 0, y: 0, width, height };
    let inset = full.spec_inset();
    let (left, right) = spec_split_columns(inset);
    let right_inset = right.spec_inset();
    let (right_top, right_middle, right_bottom) = spec_split_thirds(right_inset);
    FrameLayout { full, left, right, right_top, right_middle, right_bottom }
}

/// Split a region into its two columns.
pub fn split_columns(a: Rect) -> (r: (Rect, Rect))
    requires
        a.wf(),
    ensures
        r == spec_split_columns(a),
        r.0.wf(),
        r.1.wf(),
{
    let lw: u16 = a.width / 2;
    (
        Rect { x: a.x, y: a.y, width: lw, height: a.height },
        Rect { x: a.x + lw, y: a.y, width: a.width - lw, height: a.height },
    )
}

/// Split a region into its three rows.
pub fn split_thirds(a: Rect) -> (r: (Rect, Rect, Rect))
    requires
        a.wf(),
    ensures
        r == spec_split_thirds(a),
        r.0.wf(),
        r.1.wf(),
        r.2.wf(),
{
    let q: u16 = a.height / 3;
    let rem: u16 = a.height % 3;
    let h0: u16 = if rem > 0 { q + 1 } else { q };
    let h1: u16 = if rem > 1 { q + 1 } else { q };
    let h2: u16 = q;
    (
        Rect { x: a.x, y: a.y, width: a.width, height: h0 },
        Rect { x: a.x, y: a.y + h0, width: a.width, height: h1 },
        Rect { x: a.x, y: a.y + h0 + h1, width: a.width, height: h2 },
    )
}

/// Compute the layout of one frame for the given viewport size.
pub fn compute_layout(width: u16, height: u16) -> (r: FrameLayout)
    ensures
        r == spec_layout(width, height),
{
    let full = Rect { x: 0, y: 0, width, height };
    let inset = full.inset();
    let (left, right) = split_columns(inset);
    let right_inset = right.inset();
    let (right_top, right_middle, right_bottom) = split_thirds(right_inset);
    FrameLayout { full, left, right, right_top, right_middle, right_bottom }
}

/// Layout coverage: for any viewport at least two cells wide and tall, the
/// left and right columns tile the margin-inset viewport with no gap and no
/// overlap, and the three rows tile the margin-inset right column in the same
/// way.  All regions have non-negative integer extents by construction.
pub proof fn lemma_layout_coverage(width: u16, height: u16)
    requires
        width >= 2,
        height >= 2,
    ensures
        ({
            let l = spec_layout(width, height);
            let inset = l.full.spec_inset();
            let right_inset = l.right.spec_inset();
            &&& forall|i: int, j: int|
                inset.covers(i, j) <==> (l.left.covers(i, j) || l.right.covers(i, j))
            &&& forall|i: int, j: int| !(l.left.covers(i, j) && l.right.covers(i, j))
            &&& forall|i: int, j: int|
                right_inset.covers(i, j) <==> (l.right_top.covers(i, j)
                    || l.right_middle.covers(i, j) || l.right_bottom.covers(i, j))
            &&& forall|i: int, j: int| !(l.right_top.covers(i, j) && l.right_middle.covers(i, j))
            &&& forall|i: int, j: int| !(l.right_middle.covers(i, j) && l.right_bottom.covers(i, j))
            &&& forall|i: int, j: int| !(l.right_top.covers(i, j) && l.right_bottom.covers(i, j))
            &&& l.left.spec_area() + l.right.spec_area() == inset.spec_area()
            &&& l.right_top.spec_area() + l.right_middle.spec_area()
                + l.right_bottom.spec_area() == right_inset.spec_area()
        }),
{
    let l = spec_layout(width, height);
    let inset = l.full.spec_inset();
    let right_inset = l.right.spec_inset();
    assert(l.left.spec_area() + l.right.spec_area() == inset.spec_area()) by (nonlinear_arith)
        requires
            l.left.height == inset.height,
            l.right.height == inset.height,
            l.left.width + l.right.width == inset.width,
            l.left.spec_area() == l.left.width * l.left.height,
            l.right.spec_area() == l.right.width * l.right.height,
            inset.spec_area() == inset.width * inset.height,
    ;
    assert(l.right_top.spec_area() + l.right_middle.spec_area() + l.right_bottom.spec_area()
        == right_inset.spec_area()) by (nonlinear_arith)
        requires
            l.right_top.width == right_inset.width,
            l.right_middle.width == right_inset.width,
            l.right_bottom.width == right_inset.width,
            l.right_top.height + l.right_middle.height + l.right_bottom.height
                == right_inset.height,
            l.right_top.spec_area() == l.right_top.width * l.right_top.height,
            l.right_middle.spec_area() == l.right_middle.width * l.right_middle.height,
            l.right_bottom.spec_area() == l.right_bottom.width * l.right_bottom.height,
            right_inset.spec_area() == right_inset.width * right_inset.height,
    ;
}

/// Equal thirds: the three rows of the right column have heights that differ
/// pairwise by at most one cell, and the heights sum exactly to the height of
/// the margin-inset right column.
pub proof fn lemma_equal_thirds(width: u16, height: u16)
    ensures
        ({
            let l = spec_layout(width, height);
            let right_inset = l.right.spec_inset();
            &&& l.right_top.height + l.right_middle.height + l.right_bottom.height
                == right_inset.height
            &&& l.right_top.height - l.right_middle.height <= 1
            &&& l.right_middle.height - l.right_top.height <= 1
            &&& l.right_top.height - l.right_bottom.height <= 1
            &&& l.right_bottom.height - l.right_top.height <= 1
            &&& l.right_middle.height - l.right_bottom.height <= 1
            &&& l.right_bottom.height - l.right_middle.height <= 1
        }),
{
}

} // verus!
