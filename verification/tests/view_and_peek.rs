use peek_popup::geometry::{Position, Rect};
use peek_popup::peek::{panel_size, text_width_budget};
use peek_popup::surface::{Cell, Color, Surface};
use peek_popup::view::{align_offset, Align, DocumentId};

#[test]
fn align_offsets() {
    assert_eq!(align_offset(24, Align::Top), 0);
    assert_eq!(align_offset(24, Align::Center), 11);
    assert_eq!(align_offset(24, Align::Bottom), 23);
    assert_eq!(align_offset(0, Align::Bottom), 0);
    assert_eq!(align_offset(1, Align::Center), 0);
}

#[test]
fn document_ids_start_at_one() {
    let d = DocumentId::default();
    assert_eq!(d, DocumentId(1));
    assert!(DocumentId(2) > d);
}

#[test]
fn text_budget_clamps() {
    assert_eq!(text_width_budget(80), 78);
    assert_eq!(text_width_budget(5), 10);
    assert_eq!(text_width_budget(0), 10);
    assert_eq!(text_width_budget(500), 120);
}

#[test]
fn panel_size_wraps_content() {
    // 2 cells of horizontal padding; header, separator and vertical padding
    // add four rows.
    assert_eq!(panel_size(30, 10), (32, 14));
    assert_eq!(panel_size(200, 100), (120, 30));
    assert_eq!(panel_size(0, 0), (2, 4));
}

#[test]
fn surface_reads_back_writes() {
    let mut s = Surface::new(8, 4);
    let cell = Cell { symbol: 'x', fg: Color::Indexed(3), bg: Color::Indexed(4) };
    s.put(2, 1, cell);
    assert_eq!(s.get(2, 1), cell);
    assert_eq!(s.get(3, 1).symbol, ' ');
    s.put_symbol_fg(2, 1, 'y', Color::Indexed(5));
    let after = s.get(2, 1);
    assert_eq!(after.symbol, 'y');
    assert_eq!(after.fg, Color::Indexed(5));
    assert_eq!(after.bg, Color::Indexed(4));
}

#[test]
fn rect_inner_and_intersection() {
    let r = Rect { x: 2, y: 3, width: 10, height: 6 };
    assert_eq!(r.inner(), Rect { x: 3, y: 4, width: 8, height: 4 });
    assert_eq!(
        (Rect { x: 0, y: 0, width: 1, height: 1 }).inner(),
        Rect { x: 0, y: 0, width: 0, height: 0 }
    );
    let clipped = r.intersect(&Rect { x: 0, y: 0, width: 5, height: 5 });
    assert_eq!(clipped, Rect { x: 2, y: 3, width: 3, height: 2 });
}

#[test]
fn positions_compare_by_fields() {
    assert_eq!(Position { row: 1, col: 2 }, Position { row: 1, col: 2 });
    assert_ne!(Position { row: 1, col: 2 }, Position { row: 2, col: 1 });
}
