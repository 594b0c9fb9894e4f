//! Sizing arithmetic for the definition-peek panel: the panel frames its
//! content with a one-line header, a separator, vertical padding and a
//! horizontal margin, and stays inside fixed caps however large the content
//! reports itself.

use vstd::prelude::*;

verus! {

/// Horizontal padding, in cells, split across the two sides of the panel.
pub const PADDING_HORIZONTAL: u16 = 2;

/// Blank line above the header.
pub const PADDING_TOP: u16 = 1;

/// Blank line below the content.
pub const PADDING_BOTTOM: u16 = 1;

/// The file-path header line.
pub const HEADER_HEIGHT: u16 = 1;

/// The separator line between header and content.
pub const SEPARATOR_HEIGHT: u16 = 1;

/// Widest the panel will grow, in cells.
pub const PEEK_MAX_WIDTH: u16 = 120;

/// Tallest the panel will grow, in cells.
pub const PEEK_MAX_HEIGHT: u16 = 30;

/// `v` forced into `[lo, hi]` (callers keep `lo <= hi`).
pub open spec fn spec_clamp_u16(v: int, lo: int, hi: int) -> int {
    if v < lo {
        lo
    } else if v > hi {
        hi
    } else {
        v
    }
}

/// The width budget offered to the panel's text: the viewport width minus
/// the horizontal padding, kept between ten cells and the panel's cap.
pub open spec fn spec_text_width_budget(viewport_width: u16) -> int {
    let padded = if viewport_width > PADDING_HORIZONTAL {
        viewport_width - PADDING_HORIZONTAL
    } else {
        0
    };
    spec_clamp_u16(padded as int, 10, PEEK_MAX_WIDTH as int)
}

/// Computes the width budget for the panel's text.
pub fn text_width_budget(viewport_width: u16) -> (r: u16)
    ensures
        r == spec_text_width_budget(viewport_width),
{
    let padded: u16 = if viewport_width > PADDING_HORIZONTAL {
        viewport_width - PADDING_HORIZONTAL
    } else {
        0
    };
    if padded < 10 {
        10
    } else if padded > PEEK_MAX_WIDTH {
        PEEK_MAX_WIDTH
    } else {
        padded
    }
}

/// The panel size wrapping a measured content block: padding is added on
/// both axes, the header and separator stack on top, and both axes are
/// capped.
pub open spec fn spec_panel_size(content_width: u16, content_height: u16) -> (int, int) {
    let w = PADDING_HORIZONTAL + content_width;
    let h = PADDING_TOP + HEADER_HEIGHT + SEPARATOR_HEIGHT + content_height + PADDING_BOTTOM;
    (
        if w > PEEK_MAX_WIDTH {
            PEEK_MAX_WIDTH as int
        } else {
            w
        },
        if h > PEEK_MAX_HEIGHT {
            PEEK_MAX_HEIGHT as int
        } else {
            h
        },
    )
}

/// Computes the panel's outer size around a measured content block.
pub fn panel_size(content_width: u16, content_height: u16) -> (r: (u16, u16))
    ensures
        (r.0 as int, r.1 as int) == spec_panel_size(content_width, content_height),
        r.0 <= PEEK_MAX_WIDTH,
        r.1 <= PEEK_MAX_HEIGHT,
{
    let w: usize = (PADDING_HORIZONTAL as usize) + (content_width as usize);
    let h: usize = (PADDING_TOP as usize) + (HEADER_HEIGHT as usize) + (SEPARATOR_HEIGHT as usize)
        + (content_height as usize) + (PADDING_BOTTOM as usize);
    let rw: u16 = if w > (PEEK_MAX_WIDTH as usize) {
        PEEK_MAX_WIDTH
    } else {
        w as u16
    };
    let rh: u16 = if h > (PEEK_MAX_HEIGHT as usize) {
        PEEK_MAX_HEIGHT
    } else {
        h as u16
    };
    (rw, rh)
}

} // verus!
