//! The overlay controller: owns a popup's lifecycle, recomputes its
//! placement and scroll state every frame, paints background, border,
//! embedded content and scrollbar, and routes input events.

use vstd::prelude::*;

use crate::content::{Content, Event, EventOutcome, KeyPress, MouseEvent, MouseKind};
use crate::geometry::{Position, Rect};
use crate::placement::{
    compute_area, resolve_side, size_budget, spec_borders_applied, spec_popup_area,
    spec_resolved_side, SideBias,
};
use crate::scroll::{normalize, spec_normalize};
use crate::scrollbar::{
    paint, spec_scrollbar_row, spec_thumb_height, spec_thumb_start, thumb_height, thumb_start,
};
use crate::surface::{lemma_same_outside_chain, Color, Style, Surface};

verus! {

/// The editor-wide border preferences: one flag for plain popups, one for
/// menus.
#[derive(Clone, Copy, PartialEq, Eq, Structural, Debug)]
pub struct BorderPolicy {
    pub popup_border: bool,
    pub menu_border: bool,
}

/// The resolved colors a frame is painted with. Theme lookup happens
/// outside this crate.
#[derive(Clone, Copy, PartialEq, Eq, Structural, Debug)]
pub struct RenderStyles {
    /// Background for plain popup content.
    pub popup_background: Style,
    /// Background for menu content.
    pub menu_background: Style,
    /// Foreground of the scrollbar thumb.
    pub scroll_thumb_fg: Color,
    /// Foreground of the scrollbar track.
    pub scroll_track_fg: Color,
}

/// What one frame's layout pass decided.
#[derive(Clone, Copy, PartialEq, Eq, Structural, Debug)]
pub struct RenderInfo {
    /// Where the popup is drawn; always inside the viewport.
    pub area: Rect,
    /// Whether a border is drawn around the popup.
    pub render_borders: bool,
    /// Whether the content identified itself as a menu.
    pub is_menu: bool,
}

/// The border preference that applies to this content kind.
pub open spec fn spec_wants_border(policy: BorderPolicy, is_menu: bool) -> bool {
    if is_menu {
        policy.menu_border
    } else {
        policy.popup_border
    }
}

/// The background a frame is cleared with: the menu background for menu
/// content, the popup background otherwise.
pub open spec fn spec_background(styles: RenderStyles, is_menu: bool) -> Style {
    if is_menu {
        styles.menu_background
    } else {
        styles.popup_background
    }
}

/// The anchor used for placement: the previously stored anchor is kept as
/// long as the cursor stays on the same row (so the popup does not jitter
/// while the user moves within a line), otherwise the cursor becomes the
/// new anchor.
pub open spec fn spec_effective_anchor(prev: Option<Position>, cursor: Position) -> Position {
    match prev {
        Some(p) => if p.row == cursor.row {
            p
        } else {
            cursor
        },
        None => cursor,
    }
}

/// `v` bumped by one, stopping at the top of its range.
pub open spec fn spec_sat_inc(v: isize) -> isize {
    if v < isize::MAX {
        (v + 1) as isize
    } else {
        v
    }
}

/// `v` dropped by one, stopping at the bottom of its range.
pub open spec fn spec_sat_dec(v: isize) -> isize {
    if v > isize::MIN {
        (v - 1) as isize
    } else {
        v
    }
}

/// How a forwarded event's outcome is adjusted: with auto-close enabled, an
/// event the content ignored (without asking for a follow-up) closes the
/// popup, while "ignored" still propagates so an outer layer can react.
pub open spec fn spec_forward_outcome(auto_close: bool, content: EventOutcome) -> EventOutcome {
    if auto_close && !content.consumed && !content.close {
        EventOutcome { consumed: false, close: true }
    } else {
        content
    }
}

/// Applies the auto-close policy to the outcome the content returned.
pub fn forward_outcome(auto_close: bool, content: EventOutcome) -> (r: EventOutcome)
    ensures
        r == spec_forward_outcome(auto_close, content),
{
    if auto_close && !content.consumed && !content.close {
        EventOutcome { consumed: false, close: true }
    } else {
        content
    }
}

/// A floating panel embedding a content component, placed relative to an
/// anchor cell.
pub struct PeekPopup<T: Content> {
    pub contents: T,
    /// The stored anchor; refreshed from the cursor when its row changes.
    pub position: Option<Position>,
    /// The rectangle of the last frame, used to hit-test mouse events.
    pub area: Rect,
    pub position_bias: SideBias,
    /// Total number of content lines, for scroll clamping.
    pub contents_line: usize,
    /// Residual scroll offset in single lines.
    pub scroll_offset: usize,
    /// Scroll offset in half-page units.
    pub scroll_half_pages: isize,
    /// Scroll offset in quarter-page units.
    pub scroll_half_half_pages: isize,
    /// Close the popup when the content ignores an event.
    pub auto_close: bool,
    /// Leave the escape key for an outer layer to handle.
    pub ignore_escape_key: bool,
    pub id: &'static str,
    pub has_scrollbar: bool,
}

impl<T: Content> PeekPopup<T> {
    /// The two popups agree on every scroll counter.
    pub open spec fn spec_same_scroll(pre: Self, post: Self) -> bool {
        &&& post.scroll_offset == pre.scroll_offset
        &&& post.scroll_half_pages == pre.scroll_half_pages
        &&& post.scroll_half_half_pages == pre.scroll_half_half_pages
    }

    /// The two popups agree on everything but the content and the scroll
    /// counters.
    pub open spec fn spec_same_config(pre: Self, post: Self) -> bool {
        &&& post.position == pre.position
        &&& post.area == pre.area
        &&& post.position_bias == pre.position_bias
        &&& post.contents_line == pre.contents_line
        &&& post.auto_close == pre.auto_close
        &&& post.ignore_escape_key == pre.ignore_escape_key
        &&& post.id == pre.id
        &&& post.has_scrollbar == pre.has_scrollbar
    }

    /// What `handle_event` promises for each event: which events are
    /// consumed, which close the popup, which scroll counter moves, and
    /// which events reach the embedded content.
    pub open spec fn spec_event_outcome_ok(
        pre: Self,
        post: Self,
        event: Event,
        r: EventOutcome,
    ) -> bool {
        match event {
            Event::Key(k) => if k == KeyPress::Escape && pre.ignore_escape_key {
                // Left for the outer layer; nothing at all happens.
                r == EventOutcome::spec_ignored(false) && post == pre
            } else if k == KeyPress::Escape || k == KeyPress::Ctrl('c') {
                // Cancel: the content sees the event, then the popup closes.
                r == EventOutcome::spec_consumed(true) && Self::spec_same_scroll(pre, post)
            } else if k == KeyPress::Ctrl('d') {
                r == EventOutcome::spec_consumed(false) && post == (Self {
                    scroll_half_pages: spec_sat_inc(pre.scroll_half_pages),
                    ..pre
                })
            } else if k == KeyPress::Ctrl('u') {
                r == EventOutcome::spec_consumed(false) && post == (Self {
                    scroll_half_pages: spec_sat_dec(pre.scroll_half_pages),
                    ..pre
                })
            } else if k == KeyPress::Ctrl('f') {
                r == EventOutcome::spec_consumed(false) && post == (Self {
                    scroll_half_half_pages: spec_sat_dec(pre.scroll_half_half_pages),
                    ..pre
                })
            } else if k == KeyPress::Ctrl('b') {
                r == EventOutcome::spec_consumed(false) && post == (Self {
                    scroll_half_half_pages: spec_sat_inc(pre.scroll_half_half_pages),
                    ..pre
                })
            } else if k == KeyPress::Enter {
                // Confirm: the content reacts first, then the popup closes.
                r == EventOutcome::spec_consumed(true) && Self::spec_same_scroll(pre, post)
            } else {
                // Forwarded to the content; auto-close may turn an ignored
                // event into a close request.
                Self::spec_same_scroll(pre, post) && exists|co: EventOutcome|
                    r == spec_forward_outcome(pre.auto_close, co)
            },
            Event::Mouse(m) => if !pre.area.spec_contains(m.column as int, m.row as int) {
                r == EventOutcome::spec_ignored(false) && post == pre
            } else if m.kind == MouseKind::ScrollDown && pre.has_scrollbar {
                r == EventOutcome::spec_consumed(false) && post == (Self {
                    scroll_half_pages: spec_sat_inc(pre.scroll_half_pages),
                    ..pre
                })
            } else if m.kind == MouseKind::ScrollUp && pre.has_scrollbar {
                r == EventOutcome::spec_consumed(false) && post == (Self {
                    scroll_half_pages: spec_sat_dec(pre.scroll_half_pages),
                    ..pre
                })
            } else {
                r == EventOutcome::spec_ignored(false) && post == pre
            },
            Event::Resize(_, _) => r == EventOutcome::spec_ignored(false) && post == pre,
            Event::Other => r == EventOutcome::spec_ignored(false) && post == pre,
        }
    }

    pub fn new(id: &'static str, contents: T, content_lines: usize, scroll_offset: usize) -> (p:
        Self)
        ensures
            p.contents == contents,
            p.contents_line == content_lines,
            p.scroll_offset == scroll_offset,
            p.position is None,
            p.position_bias == SideBias::Below,
            p.area == (Rect { x: 0, y: 0, width: 0, height: 0 }),
            p.scroll_half_pages == 0,
            p.scroll_half_half_pages == 0,
            !p.auto_close,
            !p.ignore_escape_key,
            p.id == id,
            p.has_scrollbar,
    {
        Self {
            contents,
            contents_line: content_lines,
            scroll_offset,
            position: None,
            position_bias: SideBias::Below,
            area: Rect { x: 0, y: 0, width: 0, height: 0 },
            scroll_half_pages: 0,
            scroll_half_half_pages: 0,
            auto_close: false,
            ignore_escape_key: false,
            id,
            has_scrollbar: true,
        }
    }

    /// Set the anchor position next to which the popup should be drawn.
    ///
    /// This is not the top-left corner of the rendered popup itself, but
    /// the screen-space cell of the information the popup refers to.
    pub fn position(self, pos: Option<Position>) -> (p: Self)
        ensures
            p == (Self { position: pos, ..self }),
    {
        Self { position: pos, ..self }
    }

    pub fn get_position(&self) -> (pos: Option<Position>)
        ensures
            pos == self.position,
    {
        self.position
    }

    /// Set the popup to prefer to render above or below the anchor.
    /// Ignored when the viewport lacks space in that direction.
    pub fn position_bias(self, bias: SideBias) -> (p: Self)
        ensures
            p == (Self { position_bias: bias, ..self }),
    {
        Self { position_bias: bias, ..self }
    }

    pub fn auto_close(self, auto_close: bool) -> (p: Self)
        ensures
            p == (Self { auto_close, ..self }),
    {
        Self { auto_close, ..self }
    }

    /// Ignores an escape keypress, letting the outer layer (usually the
    /// editor) handle it. Useful for popups shown in insert mode, where
    /// escape already means "leave insert mode": without this flag the
    /// popup would swallow the keypress and a second escape would be
    /// needed.
    pub fn ignore_escape_key(self, ignore: bool) -> (p: Self)
        ensures
            p == (Self { ignore_escape_key: ignore, ..self }),
    {
        Self { ignore_escape_key: ignore, ..self }
    }

    pub fn scroll_half_page_down(&mut self)
        ensures
            *final(self) == (Self {
                scroll_half_pages: spec_sat_inc(old(self).scroll_half_pages),
                ..*old(self)
            }),
    {
        if self.scroll_half_pages < isize::MAX {
            self.scroll_half_pages = self.scroll_half_pages + 1;
        }
    }

    pub fn scroll_half_half_page_down(&mut self)
        ensures
            *final(self) == (Self {
                scroll_half_half_pages: spec_sat_inc(old(self).scroll_half_half_pages),
                ..*old(self)
            }),
    {
        if self.scroll_half_half_pages < isize::MAX {
            self.scroll_half_half_pages = self.scroll_half_half_pages + 1;
        }
    }

    pub fn scroll_half_page_up(&mut self)
        ensures
            *final(self) == (Self {
                scroll_half_pages: spec_sat_dec(old(self).scroll_half_pages),
                ..*old(self)
            }),
    {
        if self.scroll_half_pages > isize::MIN {
            self.scroll_half_pages = self.scroll_half_pages - 1;
        }
    }

    pub fn scroll_half_half_page_up(&mut self)
        ensures
            *final(self) == (Self {
                scroll_half_half_pages: spec_sat_dec(old(self).scroll_half_half_pages),
                ..*old(self)
            }),
    {
        if self.scroll_half_half_pages > isize::MIN {
            self.scroll_half_half_pages = self.scroll_half_half_pages - 1;
        }
    }

    /// Toggles the popup's scrollbar. Consider disabling it when the
    /// content draws its own.
    pub fn with_scrollbar(self, enable_scrollbar: bool) -> (p: Self)
        ensures
            p == (Self { has_scrollbar: enable_scrollbar, ..self }),
    {
        Self { has_scrollbar: enable_scrollbar, ..self }
    }

    pub fn contents(&self) -> (c: &T)
        ensures
            c == &self.contents,
    {
        &self.contents
    }

    pub fn contents_mut(&mut self) -> (c: &mut T)
        ensures
            *c == old(self).contents,
            *final(self) == (Self { contents: *final(c), ..*old(self) }),
    {
        &mut self.contents
    }

    pub fn id(&self) -> (r: Option<&'static str>)
        ensures
            r == Some(self.id),
    {
        Some(self.id)
    }

    /// Consumes scroll-wheel events over the popup; everything else, and
    /// anything outside the popup's area, is ignored.
    pub fn handle_mouse_event(&mut self, event: &MouseEvent) -> (r: EventOutcome)
        ensures
            Self::spec_event_outcome_ok(*old(self), *final(self), Event::Mouse(*event), r),
            final(self).contents == old(self).contents,
            Self::spec_same_config(*old(self), *final(self)),
    {
        let x = event.column;
        let y = event.row;
        let within = x >= self.area.x && (x as usize) < (self.area.x as usize) + (
        self.area.width as usize) && y >= self.area.y && (y as usize) < (self.area.y as usize) + (
        self.area.height as usize);
        if !within {
            return EventOutcome { consumed: false, close: false };
        }
        match event.kind {
            MouseKind::ScrollDown => {
                if self.has_scrollbar {
                    self.scroll_half_page_down();
                    EventOutcome { consumed: true, close: false }
                } else {
                    EventOutcome { consumed: false, close: false }
                }
            },
            MouseKind::ScrollUp => {
                if self.has_scrollbar {
                    self.scroll_half_page_up();
                    EventOutcome { consumed: true, close: false }
                } else {
                    EventOutcome { consumed: false, close: false }
                }
            },
            MouseKind::Other => EventOutcome { consumed: false, close: false },
        }
    }

    /// Routes one input event: cancel and confirm keys close the popup, the
    /// four scroll chords move their counters, mouse wheel scrolls over the
    /// popup, and everything else is forwarded to the embedded content.
    pub fn handle_event(&mut self, event: &Event) -> (r: EventOutcome)
        ensures
            Self::spec_event_outcome_ok(*old(self), *final(self), *event, r),
            Self::spec_same_config(*old(self), *final(self)),
            final(self).contents.spec_is_menu() == old(self).contents.spec_is_menu(),
            final(self).contents.spec_can_size() == old(self).contents.spec_can_size(),
    {
        let key: KeyPress = match event {
            Event::Key(k) => *k,
            Event::Mouse(m) => {
                let m2 = *m;
                return self.handle_mouse_event(&m2);
            },
            Event::Resize(_, _) => {
                return EventOutcome { consumed: false, close: false };
            },
            Event::Other => {
                return EventOutcome { consumed: false, close: false };
            },
        };

        if key == KeyPress::Escape && self.ignore_escape_key {
            return EventOutcome { consumed: false, close: false };
        }

        match key {
            KeyPress::Escape | KeyPress::Ctrl('c') => {
                let _ = self.contents.handle_event(event);
                EventOutcome { consumed: true, close: true }
            },
            KeyPress::Ctrl('d') => {
                self.scroll_half_page_down();
                EventOutcome { consumed: true, close: false }
            },
            KeyPress::Ctrl('u') => {
                self.scroll_half_page_up();
                EventOutcome { consumed: true, close: false }
            },
            KeyPress::Ctrl('f') => {
                self.scroll_half_half_page_up();
                EventOutcome { consumed: true, close: false }
            },
            KeyPress::Ctrl('b') => {
                self.scroll_half_half_page_down();
                EventOutcome { consumed: true, close: false }
            },
            KeyPress::Enter => {
                let _ = self.contents.handle_event(event);
                EventOutcome { consumed: true, close: true }
            },
            _ => {
                let co = self.contents.handle_event(event);
                forward_outcome(self.auto_close, co)
            },
        }
    }

    /// Everything `render_info` leaves alone.
    pub open spec fn spec_same_but_position(pre: Self, post: Self) -> bool {
        &&& post.area == pre.area
        &&& post.position_bias == pre.position_bias
        &&& post.contents_line == pre.contents_line
        &&& post.scroll_offset == pre.scroll_offset
        &&& post.scroll_half_pages == pre.scroll_half_pages
        &&& post.scroll_half_half_pages == pre.scroll_half_half_pages
        &&& post.auto_close == pre.auto_close
        &&& post.ignore_escape_key == pre.ignore_escape_key
        &&& post.id == pre.id
        &&& post.has_scrollbar == pre.has_scrollbar
        &&& post.contents.spec_is_menu() == pre.contents.spec_is_menu()
        &&& post.contents.spec_can_size() == pre.contents.spec_can_size()
    }

    /// One frame's layout pass: refreshes the anchor from the cursor,
    /// resolves the side, budgets the space, asks the content for its size
    /// and computes the final area.
    pub fn render_info(&mut self, viewport: &Rect, cursor: Position, borders: BorderPolicy) -> (
        info: RenderInfo)
        requires
            viewport.wf(),
            old(self).contents.spec_can_size(),
        ensures
            final(self).position == Some(spec_effective_anchor(old(self).position, cursor)),
            info.is_menu == old(self).contents.spec_is_menu(),
            info.render_borders == spec_borders_applied(
                *viewport,
                spec_effective_anchor(old(self).position, cursor).row,
                spec_resolved_side(
                    *viewport,
                    spec_effective_anchor(old(self).position, cursor).row,
                    old(self).position_bias,
                ),
                spec_wants_border(borders, old(self).contents.spec_is_menu()),
            ),
            exists|cw: u16, ch: u16|
                info.area == spec_popup_area(
                    *viewport,
                    spec_effective_anchor(old(self).position, cursor),
                    spec_resolved_side(
                        *viewport,
                        spec_effective_anchor(old(self).position, cursor).row,
                        old(self).position_bias,
                    ),
                    info.render_borders,
                    cw,
                    ch,
                ),
            info.area.spec_within(*viewport),
            info.area.wf(),
            Self::spec_same_but_position(*old(self), *final(self)),
    {
        let anchor: Position = match self.position {
            Some(old_pos) => {
                if old_pos.row == cursor.row {
                    old_pos
                } else {
                    cursor
                }
            },
            None => cursor,
        };
        self.position = Some(anchor);

        let is_menu = self.contents.is_menu();
        let wants = if is_menu {
            borders.menu_border
        } else {
            borders.popup_border
        };
        let side = resolve_side(viewport, anchor.row, self.position_bias);
        let (max_width, max_height, render_borders) = size_budget(
            viewport,
            anchor.row,
            side,
            wants,
        );
        let size = self.contents.required_size((max_width, max_height));
        let (child_w, child_h) = size.unwrap();
        let area = compute_area(viewport, anchor, side, render_borders, child_w, child_h);
        proof {
            assert(area == spec_popup_area(
                *viewport,
                spec_effective_anchor(old(self).position, cursor),
                spec_resolved_side(
                    *viewport,
                    spec_effective_anchor(old(self).position, cursor).row,
                    old(self).position_bias,
                ),
                render_borders,
                child_w,
                child_h,
            ));
            assert(exists|cw: u16, ch: u16|
                area == spec_popup_area(
                    *viewport,
                    spec_effective_anchor(old(self).position, cursor),
                    spec_resolved_side(
                        *viewport,
                        spec_effective_anchor(old(self).position, cursor).row,
                        old(self).position_bias,
                    ),
                    render_borders,
                    cw,
                    ch,
                ));
        }
        RenderInfo { area, render_borders, is_menu }
    }

    /// The rectangle the popup would occupy this frame.
    pub fn area(&mut self, viewport: &Rect, cursor: Position, borders: BorderPolicy) -> (area:
        Rect)
        requires
            viewport.wf(),
            old(self).contents.spec_can_size(),
        ensures
            area.spec_within(*viewport),
            area.wf(),
            exists|cw: u16, ch: u16|
                area == spec_popup_area(
                    *viewport,
                    spec_effective_anchor(old(self).position, cursor),
                    spec_resolved_side(
                        *viewport,
                        spec_effective_anchor(old(self).position, cursor).row,
                        old(self).position_bias,
                    ),
                    spec_borders_applied(
                        *viewport,
                        spec_effective_anchor(old(self).position, cursor).row,
                        spec_resolved_side(
                            *viewport,
                            spec_effective_anchor(old(self).position, cursor).row,
                            old(self).position_bias,
                        ),
                        spec_wants_border(borders, old(self).contents.spec_is_menu()),
                    ),
                    cw,
                    ch,
                ),
            final(self).position == Some(spec_effective_anchor(old(self).position, cursor)),
            Self::spec_same_but_position(*old(self), *final(self)),
    {
        let info = self.render_info(viewport, cursor, borders);
        proof {
            let (cw, ch) = choose|cw: u16, ch: u16|
                info.area == spec_popup_area(
                    *viewport,
                    spec_effective_anchor(old(self).position, cursor),
                    spec_resolved_side(
                        *viewport,
                        spec_effective_anchor(old(self).position, cursor).row,
                        old(self).position_bias,
                    ),
                    info.render_borders,
                    cw,
                    ch,
                );
            assert(info.area == spec_popup_area(
                *viewport,
                spec_effective_anchor(old(self).position, cursor),
                spec_resolved_side(
                    *viewport,
                    spec_effective_anchor(old(self).position, cursor).row,
                    old(self).position_bias,
                ),
                spec_borders_applied(
                    *viewport,
                    spec_effective_anchor(old(self).position, cursor).row,
                    spec_resolved_side(
                        *viewport,
                        spec_effective_anchor(old(self).position, cursor).row,
                        old(self).position_bias,
                    ),
                    spec_wants_border(borders, old(self).contents.spec_is_menu()),
                ),
                cw,
                ch,
            ));
        }
        info.area
    }

    /// The rectangle the embedded content paints into: the area, shrunk by
    /// the border margin when a border is drawn.
    pub open spec fn spec_inner_rect(area: Rect, borders: bool) -> Rect {
        if borders {
            area.spec_inner()
        } else {
            area
        }
    }

    /// Paints one frame: recomputes the popup's area, clears it with the
    /// background for this content kind, draws the optional border,
    /// re-normalizes the scroll state against this frame's inner height,
    /// lets the content paint itself, and finally draws the scrollbar when
    /// the content is longer than the inner height. Nothing outside the
    /// popup's area is touched.
    pub fn render(
        &mut self,
        viewport: &Rect,
        surface: &mut Surface,
        cursor: Position,
        borders: BorderPolicy,
        styles: &RenderStyles,
    )
        requires
            viewport.wf(),
            old(surface).wf(),
            viewport.spec_within(old(surface).spec_rect()),
            old(self).contents.spec_can_size(),
            old(self).contents_line <= isize::MAX,
        ensures
            final(surface).wf(),
            final(surface).width == old(surface).width,
            final(surface).height == old(surface).height,
            final(surface).spec_same_outside(*old(surface), final(self).area),
            final(self).area.spec_within(*viewport),
            final(self).area.wf(),
            final(self).position == Some(spec_effective_anchor(old(self).position, cursor)),
            final(self).position_bias == old(self).position_bias,
            final(self).contents_line == old(self).contents_line,
            final(self).auto_close == old(self).auto_close,
            final(self).ignore_escape_key == old(self).ignore_escape_key,
            final(self).id == old(self).id,
            final(self).has_scrollbar == old(self).has_scrollbar,
            final(self).contents.spec_is_menu() == old(self).contents.spec_is_menu(),
            final(self).contents.spec_can_size() == old(self).contents.spec_can_size(),
            ({
                let anchor = spec_effective_anchor(old(self).position, cursor);
                let side = spec_resolved_side(*viewport, anchor.row, old(self).position_bias);
                let wants = spec_wants_border(borders, old(self).contents.spec_is_menu());
                let b = spec_borders_applied(*viewport, anchor.row, side, wants);
                exists|cw: u16, ch: u16|
                    final(self).area == spec_popup_area(*viewport, anchor, side, b, cw, ch)
            }),
            ({
                let anchor = spec_effective_anchor(old(self).position, cursor);
                let side = spec_resolved_side(*viewport, anchor.row, old(self).position_bias);
                let wants = spec_wants_border(borders, old(self).contents.spec_is_menu());
                let b = spec_borders_applied(*viewport, anchor.row, side, wants);
                let inner = Self::spec_inner_rect(final(self).area, b);
                let st = spec_normalize(
                    old(self).scroll_half_pages as int,
                    old(self).scroll_half_half_pages as int,
                    old(self).scroll_offset as int,
                    (inner.height as int) / 2,
                    (inner.height as int) / 4,
                    old(self).contents_line as int,
                );
                &&& final(self).scroll_half_pages as int == st.0
                &&& final(self).scroll_half_half_pages as int == st.1
                &&& final(self).scroll_offset as int == st.2
            }),
            ({
                let anchor = spec_effective_anchor(old(self).position, cursor);
                let side = spec_resolved_side(*viewport, anchor.row, old(self).position_bias);
                let wants = spec_wants_border(borders, old(self).contents.spec_is_menu());
                let b = spec_borders_applied(*viewport, anchor.row, side, wants);
                let inner = Self::spec_inner_rect(final(self).area, b);
                let bg = spec_background(*styles, old(self).contents.spec_is_menu());
                forall|cx: int, cy: int|
                    final(self).area.spec_contains(cx, cy) && !inner.spec_contains(cx, cy)
                        ==> (#[trigger] final(surface).spec_cell(cx, cy)).bg == bg.bg
            }),
            ({
                let anchor = spec_effective_anchor(old(self).position, cursor);
                let side = spec_resolved_side(*viewport, anchor.row, old(self).position_bias);
                let wants = spec_wants_border(borders, old(self).contents.spec_is_menu());
                let b = spec_borders_applied(*viewport, anchor.row, side, wants);
                let inner = Self::spec_inner_rect(final(self).area, b);
                let bg = spec_background(*styles, old(self).contents.spec_is_menu());
                let len = old(self).contents_line as int;
                let track = inner.height as int;
                let bar_drawn = old(self).has_scrollbar && len > track && final(self).area.width
                    > 0 && final(self).area.height > 0;
                let sx = final(self).area.spec_right() - 1;
                // With borders drawn, every edge cell still carries its
                // border glyph over the cleared background; only the
                // scrollbar column's rows may be repainted, and those only
                // when the content overflows the track.
                b ==> forall|cx: int, cy: int|
                    final(self).area.spec_contains(cx, cy) && !(bar_drawn && cx == sx && inner.y
                        <= cy < inner.y + inner.height) ==> (
                    crate::surface::spec_border_symbol(final(self).area, cx, cy) matches Some(sym)
                        ==> #[trigger] final(surface).spec_cell(cx, cy) == (crate::surface::Cell {
                        symbol: sym,
                        fg: bg.fg,
                        bg: bg.bg,
                    }))
            }),
            ({
                let anchor = spec_effective_anchor(old(self).position, cursor);
                let side = spec_resolved_side(*viewport, anchor.row, old(self).position_bias);
                let wants = spec_wants_border(borders, old(self).contents.spec_is_menu());
                let b = spec_borders_applied(*viewport, anchor.row, side, wants);
                let inner = Self::spec_inner_rect(final(self).area, b);
                let st = spec_normalize(
                    old(self).scroll_half_pages as int,
                    old(self).scroll_half_half_pages as int,
                    old(self).scroll_offset as int,
                    (inner.height as int) / 2,
                    (inner.height as int) / 4,
                    old(self).contents_line as int,
                );
                let len = old(self).contents_line as int;
                let track = inner.height as int;
                let th = spec_thumb_height(track, len);
                let ts = spec_thumb_start(track, th, st.3, len);
                let sx = final(self).area.spec_right() - 1;
                (old(self).has_scrollbar && len > track && final(self).area.width > 0
                    && final(self).area.height > 0) ==> forall|cy: int|
                    inner.y <= cy < inner.y + inner.height ==> (spec_scrollbar_row(
                        ts,
                        th,
                        b,
                        cy - inner.y,
                        styles.scroll_thumb_fg,
                        styles.scroll_track_fg,
                    ) matches Some(sf) ==> (#[trigger] final(surface).spec_cell(sx, cy)).symbol
                        == sf.0 && final(surface).spec_cell(sx, cy).fg == sf.1)
            }),
    {
        let ghost s0 = *old(surface);
        let info = self.render_info(viewport, cursor, borders);
        self.area = info.area;

        let background = if info.is_menu {
            styles.menu_background
        } else {
            styles.popup_background
        };
        proof {
            crate::geometry::lemma_within_trans(info.area, *viewport, s0.spec_rect());
        }
        surface.clear_with(&info.area, background);
        let ghost s1 = *surface;

        let mut inner = info.area;
        if info.render_borders {
            inner = info.area.inner();
            surface.draw_border(&info.area);
        }
        let ghost s2 = *surface;
        proof {
            assert(inner.spec_within(info.area));
            lemma_same_outside_chain(s0, s1, s2, info.area, info.area);
            crate::geometry::lemma_within_trans(inner, info.area, s0.spec_rect());
        }

        let half_page_size: usize = (inner.height / 2) as usize;
        let half_half_page_size: usize = (inner.height / 4) as usize;
        let max_scroll = self.contents_line;
        let st = normalize(
            self.scroll_half_pages,
            self.scroll_half_half_pages,
            self.scroll_offset,
            half_page_size,
            half_half_page_size,
            max_scroll,
        );
        self.scroll_half_pages = st.half_pages;
        self.scroll_half_half_pages = st.quarter_pages;
        self.scroll_offset = st.residual;
        let scroll = st.absolute;

        self.contents.render(inner, surface, scroll);
        let ghost s3 = *surface;
        proof {
            lemma_same_outside_chain(s0, s2, s3, info.area, inner);
        }

        if self.has_scrollbar {
            let win_height = inner.height as usize;
            let len = self.contents_line;
            // Drawn only when the content overflows the track, and only when
            // the popup occupies at least one cell (a clipped-away popup has
            // no edge column to paint on).
            if len > win_height && info.area.width > 0 && info.area.height > 0 {
                let th = thumb_height(inner.height, len);
                let ts = thumb_start(inner.height, th, scroll, len);
                let sx = info.area.x + (info.area.width - 1);
                let ghost bar = Rect { x: sx, y: inner.y, width: 1, height: inner.height };
                proof {
                    assert(bar.spec_within(info.area));
                    crate::geometry::lemma_within_contains(info.area, *viewport);
                    crate::geometry::lemma_within_contains(*viewport, s0.spec_rect());
                    assert(info.area.spec_contains(sx as int, info.area.y as int));
                    assert(s0.spec_rect().spec_contains(sx as int, info.area.y as int));
                }
                paint(
                    surface,
                    sx,
                    inner.y,
                    inner.height,
                    ts,
                    th,
                    info.render_borders,
                    styles.scroll_thumb_fg,
                    styles.scroll_track_fg,
                );
                proof {
                    lemma_same_outside_chain(s0, s3, *surface, info.area, bar);
                    assert forall|cx: int, cy: int|
                        0 <= cx < s3.width && 0 <= cy < s3.height implies (#[trigger] surface.spec_cell(
                        cx,
                        cy,
                    )).bg == s3.spec_cell(cx, cy).bg by {
                        if bar.spec_contains(cx, cy) {
                            assert(cx == sx && inner.y <= cy < inner.y + inner.height);
                        }
                    }
                }
            }
        }
        proof {
            assert forall|cx: int, cy: int|
                info.area.spec_contains(cx, cy) && !inner.spec_contains(cx, cy) implies (
            #[trigger] surface.spec_cell(cx, cy)).bg == background.bg by {
                crate::geometry::lemma_within_contains(info.area, *viewport);
                crate::geometry::lemma_within_contains(*viewport, s0.spec_rect());
                assert(s0.spec_rect().spec_contains(cx, cy));
                assert(0 <= cx < s0.width && 0 <= cy < s0.height);
                assert(s1.spec_cell(cx, cy) == crate::surface::Cell::spec_blank(background));
                assert(s2.spec_cell(cx, cy).bg == background.bg);
                assert(s3.spec_cell(cx, cy) == s2.spec_cell(cx, cy));
                assert(surface.spec_cell(cx, cy).bg == s3.spec_cell(cx, cy).bg);
            }
            if info.render_borders {
                let sx_g = info.area.spec_right() - 1;
                let bar_drawn = self.has_scrollbar && (self.contents_line as int)
                    > (inner.height as int) && info.area.width > 0 && info.area.height > 0;
                let bar_g = Rect { x: sx_g as u16, y: inner.y, width: 1, height: inner.height };
                assert forall|cx: int, cy: int|
                    info.area.spec_contains(cx, cy) && !(bar_drawn && cx == sx_g && inner.y <= cy
                        < inner.y + inner.height) && crate::surface::spec_border_symbol(
                        info.area,
                        cx,
                        cy,
                    ) is Some implies #[trigger] surface.spec_cell(cx, cy) == (
                crate::surface::Cell {
                    symbol: crate::surface::spec_border_symbol(info.area, cx, cy)->0,
                    fg: background.fg,
                    bg: background.bg,
                }) by {
                    crate::geometry::lemma_within_contains(info.area, *viewport);
                    crate::geometry::lemma_within_contains(*viewport, s0.spec_rect());
                    assert(s0.spec_rect().spec_contains(cx, cy));
                    assert(0 <= cx < s0.width && 0 <= cy < s0.height);
                    // An edge cell never lies in the border-shrunk interior.
                    assert(!inner.spec_contains(cx, cy));
                    assert(s1.spec_cell(cx, cy) == crate::surface::Cell::spec_blank(background));
                    assert(s2.spec_cell(cx, cy) == (crate::surface::Cell {
                        symbol: crate::surface::spec_border_symbol(info.area, cx, cy)->0,
                        fg: background.fg,
                        bg: background.bg,
                    }));
                    assert(s3.spec_cell(cx, cy) == s2.spec_cell(cx, cy));
                    if bar_drawn {
                        assert(!bar_g.spec_contains(cx, cy));
                        assert(surface.spec_cell(cx, cy) == s3.spec_cell(cx, cy));
                    } else {
                        assert(surface.spec_cell(cx, cy) == s3.spec_cell(cx, cy));
                    }
                }
            }
        }
    }
}

} // verus!
