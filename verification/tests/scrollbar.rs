use peek_popup::geometry::Rect;
use peek_popup::scrollbar::{paint, thumb_height, thumb_start};
use peek_popup::surface::{Color, Surface};

#[test]
fn thumb_is_one_cell_for_very_long_content() {
    // track 10, content 100: ceil(100 / 100) = 1.
    assert_eq!(thumb_height(10, 100), 1);
    assert_eq!(thumb_height(10, 1_000_000), 1);
}

#[test]
fn thumb_fills_track_when_content_fits() {
    assert_eq!(thumb_height(10, 10), 10);
    assert_eq!(thumb_height(10, 3), 10);
}

#[test]
fn thumb_height_is_proportional_in_between() {
    // track 10, content 25: ceil(100 / 25) = 4.
    assert_eq!(thumb_height(10, 25), 4);
}

#[test]
fn thumb_start_floors() {
    // (10 - 1) * 45 / 90 = 4 (floor).
    assert_eq!(thumb_start(10, 1, 45, 100), 4);
}

#[test]
fn thumb_start_at_ends() {
    assert_eq!(thumb_start(10, 4, 0, 25), 0);
    // (10 - 4) * 15 / 15 = 6: thumb flush with the track's bottom.
    assert_eq!(thumb_start(10, 4, 15, 25), 6);
}

#[test]
fn paint_draws_thumb_and_track() {
    let mut surface = Surface::new(20, 12);
    paint(
        &mut surface,
        5,
        1,
        10,
        2,
        3,
        false,
        Color::Indexed(1),
        Color::Indexed(2),
    );
    for i in 0..10u16 {
        let cell = surface.get(5, 1 + i);
        assert_eq!(cell.symbol, '▐');
        if (2..5).contains(&i) {
            assert_eq!(cell.fg, Color::Indexed(1));
        } else {
            assert_eq!(cell.fg, Color::Indexed(2));
        }
    }
    // Nothing outside the column moved.
    assert_eq!(surface.get(4, 3), surface.get(4, 11));
}

#[test]
fn paint_with_borders_leaves_track_rows_alone() {
    let mut surface = Surface::new(20, 12);
    paint(
        &mut surface,
        5,
        1,
        10,
        2,
        3,
        true,
        Color::Indexed(1),
        Color::Indexed(2),
    );
    for i in 0..10u16 {
        let cell = surface.get(5, 1 + i);
        if (2..5).contains(&i) {
            assert_eq!(cell.symbol, '▌');
            assert_eq!(cell.fg, Color::Indexed(1));
        } else {
            assert_eq!(cell.symbol, ' ');
        }
    }
}

#[test]
fn border_glyphs_frame_the_area() {
    let mut surface = Surface::new(10, 10);
    let area = Rect { x: 2, y: 2, width: 4, height: 3 };
    surface.draw_border(&area);
    assert_eq!(surface.get(2, 2).symbol, '┌');
    assert_eq!(surface.get(5, 2).symbol, '┐');
    assert_eq!(surface.get(2, 4).symbol, '└');
    assert_eq!(surface.get(5, 4).symbol, '┘');
    assert_eq!(surface.get(3, 2).symbol, '─');
    assert_eq!(surface.get(3, 4).symbol, '─');
    assert_eq!(surface.get(2, 3).symbol, '│');
    assert_eq!(surface.get(5, 3).symbol, '│');
    // Interior untouched.
    assert_eq!(surface.get(3, 3).symbol, ' ');
    // Outside untouched.
    assert_eq!(surface.get(1, 2).symbol, ' ');
    assert_eq!(surface.get(6, 4).symbol, ' ');
}
