use peek_popup::geometry::{Position, Rect};
use peek_popup::placement::{compute_area, resolve_side, size_budget, SideBias};

fn viewport(width: u16, height: u16) -> Rect {
    Rect { x: 0, y: 0, width, height }
}

#[test]
fn below_infeasible_resolves_above() {
    // Viewport 80x24, anchor at row 20: below needs more than 20 + 6 rows,
    // which 24 does not offer, while above has 20 rows.
    let vp = viewport(80, 24);
    assert_eq!(resolve_side(&vp, 20, SideBias::Below), SideBias::Above);
}

#[test]
fn above_infeasible_resolves_below() {
    let vp = viewport(80, 24);
    assert_eq!(resolve_side(&vp, 3, SideBias::Above), SideBias::Below);
}

#[test]
fn feasible_bias_is_honored() {
    let vp = viewport(80, 24);
    assert_eq!(resolve_side(&vp, 3, SideBias::Below), SideBias::Below);
    assert_eq!(resolve_side(&vp, 20, SideBias::Above), SideBias::Above);
}

#[test]
fn bias_flips_even_when_other_side_is_tight() {
    // Nowhere has space: the bias still flips unconditionally.
    let vp = viewport(10, 4);
    assert_eq!(resolve_side(&vp, 2, SideBias::Below), SideBias::Above);
    assert_eq!(resolve_side(&vp, 2, SideBias::Above), SideBias::Below);
}

#[test]
fn budget_above_reserves_borders() {
    let vp = viewport(80, 24);
    let (w, h, borders) = size_budget(&vp, 20, SideBias::Above, true);
    // Raw budget: min(20, 26) rows, min(78, 120) columns; borders fit, so
    // two cells per axis are reserved.
    assert!(borders);
    assert_eq!((w, h), (76, 18));
}

#[test]
fn budget_suppresses_borders_when_tiny() {
    let vp = viewport(4, 12);
    let (w, h, borders) = size_budget(&vp, 4, SideBias::Above, true);
    assert!(!borders);
    assert_eq!((w, h), (2, 4));
}

#[test]
fn area_above_plain() {
    let vp = viewport(80, 24);
    let anchor = Position { row: 20, col: 10 };
    let area = compute_area(&vp, anchor, SideBias::Above, false, 30, 10);
    assert_eq!(area, Rect { x: 10, y: 10, width: 30, height: 10 });
}

#[test]
fn area_shifts_left_before_shrinking() {
    let vp = viewport(80, 24);
    let anchor = Position { row: 0, col: 70 };
    let area = compute_area(&vp, anchor, SideBias::Below, false, 30, 5);
    // 70 + 30 + 2 exceeds 80: the popup shifts to column 48 and keeps its
    // width of 30.
    assert_eq!(area, Rect { x: 48, y: 1, width: 30, height: 5 });
}

#[test]
fn area_below_clamps_to_bottom() {
    let vp = viewport(80, 24);
    let anchor = Position { row: 20, col: 0 };
    let area = compute_area(&vp, anchor, SideBias::Below, false, 10, 20);
    assert_eq!(area.y, 21);
    assert_eq!(area.height, 3);
}

#[test]
fn area_stays_inside_viewport_for_wild_anchors() {
    let vp = viewport(80, 24);
    for &(row, col) in &[(0u16, 0u16), (100, 200), (65535, 65535), (23, 79), (24, 80)] {
        for &side in &[SideBias::Above, SideBias::Below] {
            for &borders in &[false, true] {
                let area = compute_area(
                    &vp,
                    Position { row, col },
                    side,
                    borders,
                    65535,
                    65535,
                );
                assert!(area.x as u32 + area.width as u32 <= 80);
                assert!(area.y as u32 + area.height as u32 <= 24);
            }
        }
    }
}

#[test]
fn zero_viewport_yields_empty_area() {
    let vp = viewport(0, 0);
    let area = compute_area(&vp, Position { row: 5, col: 5 }, SideBias::Below, true, 40, 40);
    assert_eq!(area.width, 0);
    assert_eq!(area.height, 0);
}

#[test]
fn content_reporting_zero_yields_empty_or_border_only() {
    let vp = viewport(80, 24);
    let area = compute_area(&vp, Position { row: 10, col: 5 }, SideBias::Above, false, 0, 0);
    assert_eq!(area.height, 0);
    // With borders the two border cells per axis remain.
    let bordered = compute_area(&vp, Position { row: 10, col: 5 }, SideBias::Above, true, 0, 0);
    assert_eq!(bordered.height, 2);
    assert_eq!(bordered.width, 2);
}
