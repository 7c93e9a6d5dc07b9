use splitpane::geometry::Rect;
use splitpane::layout::{compute_layout, split_columns, split_thirds};

#[test]
fn layout_of_a_20_by_11_viewport() {
    let l = compute_layout(20, 11);
    assert_eq!(l.full, Rect { x: 0, y: 0, width: 20, height: 11 });
    assert_eq!(l.left, Rect { x: 1, y: 1, width: 9, height: 9 });
    assert_eq!(l.right, Rect { x: 10, y: 1, width: 9, height: 9 });
    assert_eq!(l.right_top, Rect { x: 11, y: 2, width: 7, height: 3 });
    assert_eq!(l.right_middle, Rect { x: 11, y: 5, width: 7, height: 2 });
    assert_eq!(l.right_bottom, Rect { x: 11, y: 7, width: 7, height: 2 });
}

#[test]
fn columns_cover_the_inset_viewport() {
    for w in 2u16..40 {
        for h in 2u16..20 {
            let l = compute_layout(w, h);
            assert_eq!(l.left.x, 1);
            assert_eq!(l.right.x, l.left.x + l.left.width);
            assert_eq!(l.left.width + l.right.width, w - 2);
            assert_eq!(l.left.height, h - 2);
            assert_eq!(l.right.height, h - 2);
        }
    }
}

#[test]
fn thirds_share_the_height_evenly() {
    for h in 0u16..30 {
        let area = Rect { x: 3, y: 4, width: 10, height: h };
        let (a, b, c) = split_thirds(area);
        assert_eq!(a.height + b.height + c.height, h);
        assert!(a.height.abs_diff(b.height) <= 1);
        assert!(a.height.abs_diff(c.height) <= 1);
        assert!(b.height.abs_diff(c.height) <= 1);
        assert_eq!(a.y, area.y);
        assert_eq!(b.y, a.y + a.height);
        assert_eq!(c.y, b.y + b.height);
    }
}

#[test]
fn odd_widths_round_in_favor_of_the_right_column() {
    let area = Rect { x: 0, y: 0, width: 7, height: 5 };
    let (left, right) = split_columns(area);
    assert_eq!(left.width, 3);
    assert_eq!(right.width, 4);
    assert_eq!(left.width + right.width, area.width);
}

#[test]
fn degenerate_viewports_collapse_to_empty_regions() {
    for (w, h) in [(0u16, 0u16), (1, 5), (5, 1), (2, 2), (2, 40), (40, 2)] {
        let l = compute_layout(w, h);
        for r in [l.left, l.right, l.right_top, l.right_middle, l.right_bottom] {
            assert_eq!(u32::from(r.width) * u32::from(r.height), 0);
        }
    }
}
