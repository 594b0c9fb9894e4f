use peek_popup::content::{Event, EventOutcome, FixedContent, KeyPress, MouseEvent, MouseKind};
use peek_popup::geometry::{Position, Rect};
use peek_popup::placement::SideBias;
use peek_popup::popup::{forward_outcome, BorderPolicy, PeekPopup, RenderStyles};
use peek_popup::surface::{Color, Style, Surface};

fn fixed(width: u16, height: u16) -> FixedContent {
    FixedContent { width, height, menu: false }
}

fn popup(content_lines: usize) -> PeekPopup<FixedContent> {
    PeekPopup::new("hover", fixed(30, 10), content_lines, 0)
}

fn styles() -> RenderStyles {
    RenderStyles {
        popup_background: Style { fg: Color::Reset, bg: Color::Indexed(8) },
        menu_background: Style { fg: Color::Reset, bg: Color::Indexed(9) },
        scroll_thumb_fg: Color::Indexed(1),
        scroll_track_fg: Color::Indexed(2),
    }
}

const NO_BORDERS: BorderPolicy = BorderPolicy { popup_border: false, menu_border: false };
const BORDERS: BorderPolicy = BorderPolicy { popup_border: true, menu_border: true };

#[test]
fn builders_configure_the_popup() {
    let p = popup(100)
        .position(Some(Position { row: 3, col: 4 }))
        .position_bias(SideBias::Above)
        .auto_close(true)
        .ignore_escape_key(true)
        .with_scrollbar(false);
    assert_eq!(p.get_position(), Some(Position { row: 3, col: 4 }));
    assert_eq!(p.position_bias, SideBias::Above);
    assert!(p.auto_close);
    assert!(p.ignore_escape_key);
    assert!(!p.has_scrollbar);
    assert_eq!(p.id(), Some("hover"));
    assert_eq!(p.contents().width, 30);
}

#[test]
fn escape_closes_unless_ignored() {
    let mut p = popup(100);
    let r = p.handle_event(&Event::Key(KeyPress::Escape));
    assert_eq!(r, EventOutcome { consumed: true, close: true });

    let mut p = popup(100).ignore_escape_key(true);
    let r = p.handle_event(&Event::Key(KeyPress::Escape));
    assert_eq!(r, EventOutcome { consumed: false, close: false });
}

#[test]
fn ctrl_c_closes() {
    let mut p = popup(100);
    let r = p.handle_event(&Event::Key(KeyPress::Ctrl('c')));
    assert_eq!(r, EventOutcome { consumed: true, close: true });
}

#[test]
fn enter_forwards_then_closes() {
    let mut p = popup(100);
    let r = p.handle_event(&Event::Key(KeyPress::Enter));
    assert_eq!(r, EventOutcome { consumed: true, close: true });
}

#[test]
fn scroll_chords_move_their_counters() {
    let mut p = popup(100);
    assert_eq!(
        p.handle_event(&Event::Key(KeyPress::Ctrl('d'))),
        EventOutcome { consumed: true, close: false }
    );
    assert_eq!(p.scroll_half_pages, 1);
    p.handle_event(&Event::Key(KeyPress::Ctrl('u')));
    assert_eq!(p.scroll_half_pages, 0);
    p.handle_event(&Event::Key(KeyPress::Ctrl('b')));
    assert_eq!(p.scroll_half_half_pages, 1);
    p.handle_event(&Event::Key(KeyPress::Ctrl('f')));
    assert_eq!(p.scroll_half_half_pages, 0);
}

#[test]
fn other_keys_are_forwarded() {
    // FixedContent ignores everything; without auto-close that simply
    // propagates.
    let mut p = popup(100);
    let r = p.handle_event(&Event::Key(KeyPress::Char('x')));
    assert_eq!(r, EventOutcome { consumed: false, close: false });
}

#[test]
fn auto_close_turns_ignored_into_close() {
    let mut p = popup(100).auto_close(true);
    let r = p.handle_event(&Event::Key(KeyPress::Char('x')));
    assert_eq!(r, EventOutcome { consumed: false, close: true });
}

#[test]
fn forwarded_outcome_policy() {
    let ignored_plain = EventOutcome { consumed: false, close: false };
    let ignored_with_callback = EventOutcome { consumed: false, close: true };
    let consumed = EventOutcome { consumed: true, close: false };
    // Without auto-close nothing is adjusted.
    assert_eq!(forward_outcome(false, ignored_plain), ignored_plain);
    // Auto-close turns a plainly ignored event into a close request.
    assert_eq!(
        forward_outcome(true, ignored_plain),
        EventOutcome { consumed: false, close: true }
    );
    // An ignored event that already carries a follow-up passes through.
    assert_eq!(forward_outcome(true, ignored_with_callback), ignored_with_callback);
    assert_eq!(forward_outcome(true, consumed), consumed);
}

#[test]
fn scroll_counters_saturate() {
    let mut p = popup(100);
    p.scroll_half_pages = isize::MAX;
    p.scroll_half_page_down();
    assert_eq!(p.scroll_half_pages, isize::MAX);
    p.scroll_half_pages = isize::MIN;
    p.scroll_half_page_up();
    assert_eq!(p.scroll_half_pages, isize::MIN);
}

#[test]
fn resize_is_ignored() {
    let mut p = popup(100);
    let r = p.handle_event(&Event::Resize(120, 40));
    assert_eq!(r, EventOutcome { consumed: false, close: false });
}

#[test]
fn wheel_scrolls_only_inside_the_area() {
    let mut p = popup(100);
    p.area = Rect { x: 10, y: 5, width: 20, height: 8 };
    let inside = MouseEvent { kind: MouseKind::ScrollDown, column: 15, row: 6 };
    let outside = MouseEvent { kind: MouseKind::ScrollDown, column: 9, row: 6 };
    assert_eq!(
        p.handle_event(&Event::Mouse(inside)),
        EventOutcome { consumed: true, close: false }
    );
    assert_eq!(p.scroll_half_pages, 1);
    assert_eq!(
        p.handle_event(&Event::Mouse(outside)),
        EventOutcome { consumed: false, close: false }
    );
    assert_eq!(p.scroll_half_pages, 1);
    let up = MouseEvent { kind: MouseKind::ScrollUp, column: 15, row: 6 };
    p.handle_event(&Event::Mouse(up));
    assert_eq!(p.scroll_half_pages, 0);
}

#[test]
fn wheel_ignored_without_scrollbar() {
    let mut p = popup(100).with_scrollbar(false);
    p.area = Rect { x: 0, y: 0, width: 20, height: 8 };
    let inside = MouseEvent { kind: MouseKind::ScrollDown, column: 5, row: 5 };
    assert_eq!(
        p.handle_event(&Event::Mouse(inside)),
        EventOutcome { consumed: false, close: false }
    );
}

#[test]
fn anchor_sticks_while_the_row_is_unchanged() {
    let vp = Rect { x: 0, y: 0, width: 80, height: 24 };
    let mut p = popup(100).position(Some(Position { row: 20, col: 10 }));
    p.area(&vp, Position { row: 20, col: 17 }, NO_BORDERS);
    // Same row: the stored anchor column is kept.
    assert_eq!(p.get_position(), Some(Position { row: 20, col: 10 }));
    p.area(&vp, Position { row: 21, col: 17 }, NO_BORDERS);
    assert_eq!(p.get_position(), Some(Position { row: 21, col: 17 }));
}

#[test]
fn render_paints_only_inside_the_area() {
    let vp = Rect { x: 0, y: 0, width: 80, height: 24 };
    let mut surface = Surface::new(80, 24);
    let mut p = popup(5);
    p.render(&vp, &mut surface, Position { row: 20, col: 10 }, NO_BORDERS, &styles());
    let area = p.area;
    assert_eq!(area, Rect { x: 10, y: 10, width: 30, height: 10 });
    for y in 0..24u16 {
        for x in 0..80u16 {
            let cell = surface.get(x, y);
            let inside = (area.x..area.x + area.width).contains(&x)
                && (area.y..area.y + area.height).contains(&y);
            if inside {
                assert_eq!(cell.bg, Color::Indexed(8));
            } else {
                assert_eq!(cell.bg, Color::Reset);
                assert_eq!(cell.symbol, ' ');
            }
        }
    }
}

#[test]
fn render_draws_border_and_scrollbar() {
    let vp = Rect { x: 0, y: 0, width: 80, height: 24 };
    let mut surface = Surface::new(80, 24);
    // 100 content lines dwarf the inner height, so the scrollbar shows.
    let mut p = popup(100);
    p.render(&vp, &mut surface, Position { row: 20, col: 10 }, BORDERS, &styles());
    let area = p.area;
    assert_eq!(surface.get(area.x, area.y).symbol, '┌');
    assert_eq!(surface.get(area.x + area.width - 1, area.y).symbol, '┐');
    // The scrollbar column hugs the area's right edge, one row into the
    // border; with borders it uses the left half block.
    let sx = area.x + area.width - 1;
    let inner_top = area.y + 1;
    let mut thumb_cells = 0;
    for i in 0..(area.height - 2) {
        let cell = surface.get(sx, inner_top + i);
        if cell.symbol == '▌' {
            thumb_cells += 1;
            assert_eq!(cell.fg, Color::Indexed(1));
        }
    }
    assert!(thumb_cells >= 1);
}

#[test]
fn no_scrollbar_when_content_fits_bordered() {
    let vp = Rect { x: 0, y: 0, width: 80, height: 24 };
    let mut surface = Surface::new(80, 24);
    // 5 content lines fit the inner height of 10: nothing is drawn over the
    // border's right edge.
    let mut p = popup(5);
    p.render(&vp, &mut surface, Position { row: 20, col: 10 }, BORDERS, &styles());
    let area = p.area;
    assert_eq!(area, Rect { x: 10, y: 8, width: 32, height: 12 });
    let sx = area.x + area.width - 1;
    assert_eq!(surface.get(sx, area.y).symbol, '┐');
    assert_eq!(surface.get(sx, area.y + area.height - 1).symbol, '┘');
    for y in (area.y + 1)..(area.y + area.height - 1) {
        assert_eq!(surface.get(sx, y).symbol, '│');
    }
}

#[test]
fn no_scrollbar_when_content_fits_plain() {
    let vp = Rect { x: 0, y: 0, width: 80, height: 24 };
    let mut surface = Surface::new(80, 24);
    let mut p = popup(5);
    p.render(&vp, &mut surface, Position { row: 20, col: 10 }, NO_BORDERS, &styles());
    let area = p.area;
    let sx = area.x + area.width - 1;
    for y in area.y..(area.y + area.height) {
        let cell = surface.get(sx, y);
        assert_eq!(cell.symbol, ' ');
        assert_eq!(cell.bg, Color::Indexed(8));
    }
}

#[test]
fn render_normalizes_the_scroll_counters() {
    let vp = Rect { x: 0, y: 0, width: 80, height: 24 };
    let mut surface = Surface::new(80, 24);
    let mut p = popup(17);
    // Inner height is 10 (content reports 10, no borders): half page 5,
    // quarter page 2.
    p.scroll_half_pages = 4;
    p.render(&vp, &mut surface, Position { row: 20, col: 10 }, NO_BORDERS, &styles());
    // 4 half pages = 20 lines, clamped to 17 = 3 half pages + 1 quarter + 0.
    assert_eq!(p.scroll_half_pages, 3);
    assert_eq!(p.scroll_half_half_pages, 1);
    assert_eq!(p.scroll_offset, 0);
}

#[test]
fn menu_content_takes_the_menu_background() {
    let vp = Rect { x: 0, y: 0, width: 80, height: 24 };
    let mut surface = Surface::new(80, 24);
    let content = FixedContent { width: 20, height: 5, menu: true };
    let mut p = PeekPopup::new("menu", content, 5, 0);
    p.render(&vp, &mut surface, Position { row: 10, col: 5 }, NO_BORDERS, &styles());
    let area = p.area;
    assert_eq!(surface.get(area.x, area.y).bg, Color::Indexed(9));
}
