//! The embedded-content contract and the input-event model.
//!
//! The popup never inspects its content's internals: it asks for a required
//! size against a budget, hands over a rectangle to render into, and
//! forwards the events it does not consume itself. Content implementations
//! promise in return to paint only inside the rectangle they were given.

use vstd::prelude::*;

use crate::geometry::Rect;
use crate::surface::Surface;

verus! {

/// A key press, reduced to the distinctions the popup routes on.
#[derive(Clone, Copy, PartialEq, Eq, Structural, Debug)]
pub enum KeyPress {
    Escape,
    Enter,
    /// A control chord, e.g. ctrl-c.
    Ctrl(char),
    /// Any printable key.
    Char(char),
    /// Any other key.
    Other,
}

/// What a mouse event did.
#[derive(Clone, Copy, PartialEq, Eq, Structural, Debug)]
pub enum MouseKind {
    ScrollUp,
    ScrollDown,
    Other,
}

/// A mouse event at a screen cell.
#[derive(Clone, Copy, PartialEq, Eq, Structural, Debug)]
pub struct MouseEvent {
    pub kind: MouseKind,
    pub column: u16,
    pub row: u16,
}

/// An input event delivered to the popup.
#[derive(Clone, Copy, PartialEq, Eq, Structural, Debug)]
pub enum Event {
    Key(KeyPress),
    Mouse(MouseEvent),
    /// A terminal resize to the given width and height. Intentionally left
    /// unhandled mid-popup: the next full redraw repositions everything.
    Resize(u16, u16),
    /// Any event the popup does not model further.
    Other,
}

/// Whether an event was consumed, and whether handling it asks for the
/// popup to be closed afterwards (the caller then removes the popup from
/// its render stack).
#[derive(Clone, Copy, PartialEq, Eq, Structural, Debug)]
pub struct EventOutcome {
    pub consumed: bool,
    pub close: bool,
}

impl EventOutcome {
    pub open spec fn spec_consumed(close: bool) -> EventOutcome {
        EventOutcome { consumed: true, close }
    }

    pub open spec fn spec_ignored(close: bool) -> EventOutcome {
        EventOutcome { consumed: false, close }
    }
}

/// The contract a component must meet to be embedded in a popup.
pub trait Content: Sized {
    /// Whether the content is a menu. A plain capability tag fixed at
    /// construction: it selects the menu background and border policy.
    spec fn spec_is_menu(&self) -> bool;

    /// Whether the content can report its required size. A popup must not
    /// be asked to render content that cannot.
    spec fn spec_can_size(&self) -> bool;

    /// Reports the menu capability tag.
    fn is_menu(&self) -> (r: bool)
        ensures
            r == self.spec_is_menu(),
    ;

    /// Reports the width and height the content wants, given the largest
    /// size the popup can offer. The content may answer with any size; the
    /// popup re-clamps it. `None` means the content cannot size itself.
    fn required_size(&mut self, max_size: (u16, u16)) -> (r: Option<(u16, u16)>)
        ensures
            r is Some <==> old(self).spec_can_size(),
            final(self).spec_is_menu() == old(self).spec_is_menu(),
            final(self).spec_can_size() == old(self).spec_can_size(),
    ;

    /// Paints the content into `inner`, scrolled down by `scroll` lines.
    /// Writes stay inside `inner`; the grid keeps its dimensions.
    fn render(&mut self, inner: Rect, surface: &mut Surface, scroll: usize)
        requires
            old(surface).wf(),
            inner.spec_within(old(surface).spec_rect()),
        ensures
            final(surface).wf(),
            final(surface).spec_same_outside(*old(surface), inner),
            final(self).spec_is_menu() == old(self).spec_is_menu(),
            final(self).spec_can_size() == old(self).spec_can_size(),
    ;

    /// Reacts to an event the popup forwarded.
    fn handle_event(&mut self, event: &Event) -> (r: EventOutcome)
        ensures
            final(self).spec_is_menu() == old(self).spec_is_menu(),
            final(self).spec_can_size() == old(self).spec_can_size(),
    ;
}

/// A minimal content implementation: reports a fixed required size, paints
/// nothing, and ignores every event. Useful to embed plain pre-measured
/// text whose painting happens elsewhere, and as the simplest model of the
/// content contract.
pub struct FixedContent {
    /// The width the content asks for.
    pub width: u16,
    /// The height the content asks for.
    pub height: u16,
    /// The menu capability tag.
    pub menu: bool,
}

impl Content for FixedContent {
    open spec fn spec_is_menu(&self) -> bool {
        self.menu
    }

    open spec fn spec_can_size(&self) -> bool {
        true
    }

    fn is_menu(&self) -> (r: bool) {
        self.menu
    }

    fn required_size(&mut self, max_size: (u16, u16)) -> (r: Option<(u16, u16)>)
        ensures
            r == Some((old(self).width, old(self).height)),
            *final(self) == *old(self),
    {
        Some((self.width, self.height))
    }

    fn render(&mut self, inner: Rect, surface: &mut Surface, scroll: usize)
        ensures
            *final(surface) == *old(surface),
            *final(self) == *old(self),
    {
    }

    fn handle_event(&mut self, event: &Event) -> (r: EventOutcome)
        ensures
            r == (EventOutcome { consumed: false, close: false }),
            *final(self) == *old(self),
    {
        EventOutcome { consumed: false, close: false }
    }
}

} // verus!
