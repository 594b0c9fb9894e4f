//! Placement engine: resolves on which side of the anchor the popup opens,
//! how much space it may take, whether borders fit, and the final screen
//! rectangle.
//!
//! The popup never exceeds the viewport: whatever the anchor and the content
//! report, the computed area is clipped to the viewport, so a degenerate
//! viewport yields a valid (possibly empty) rectangle instead of a failure.

use vstd::math::{max, min};
use vstd::prelude::*;

use crate::geometry::{Position, Rect};

verus! {

/// Minimum height, in cells, that a direction must offer before the popup
/// prefers to open there.
pub const MIN_HEIGHT: u16 = 6;

/// Hard cap on the popup's height in cells.
pub const MAX_HEIGHT: u16 = 26;

/// Hard cap on the popup's width in cells.
pub const MAX_WIDTH: u16 = 120;

/// Caller preference for opening the popup above or below the anchor row.
/// The preference is overridden when the preferred direction lacks space.
#[derive(Clone, Copy, PartialEq, Eq, Structural, Debug)]
pub enum SideBias {
    Above,
    Below,
}

/// There are more than `MIN_HEIGHT` rows between the anchor row and the
/// bottom of the viewport.
pub open spec fn spec_can_put_below(viewport: Rect, anchor_row: u16) -> bool {
    viewport.height > anchor_row + MIN_HEIGHT
}

/// There are at least `MIN_HEIGHT` rows above the anchor row.
pub open spec fn spec_can_put_above(anchor_row: u16) -> bool {
    anchor_row >= MIN_HEIGHT
}

/// The side the popup actually opens on: the bias when feasible, otherwise
/// the opposite side unconditionally (even if that side is also short on
/// space; the popup is then clipped rather than rejected).
pub open spec fn spec_resolved_side(viewport: Rect, anchor_row: u16, bias: SideBias) -> SideBias {
    match bias {
        SideBias::Below => if spec_can_put_below(viewport, anchor_row) {
            SideBias::Below
        } else {
            SideBias::Above
        },
        SideBias::Above => if spec_can_put_above(anchor_row) {
            SideBias::Above
        } else {
            SideBias::Below
        },
    }
}

/// Resolves the final opening side from the caller's bias and the space
/// around the anchor.
pub fn resolve_side(viewport: &Rect, anchor_row: u16, bias: SideBias) -> (side: SideBias)
    ensures
        side == spec_resolved_side(*viewport, anchor_row, bias),
{
    let can_below = (viewport.height as usize) > (anchor_row as usize) + (MIN_HEIGHT as usize);
    let can_above = anchor_row >= MIN_HEIGHT;
    match bias {
        SideBias::Below => if can_below {
            SideBias::Below
        } else {
            SideBias::Above
        },
        SideBias::Above => if can_above {
            SideBias::Above
        } else {
            SideBias::Below
        },
    }
}

/// An infeasible bias always flips to the other side, and a feasible bias is
/// always honored.
pub proof fn lemma_infeasible_bias_flips(viewport: Rect, anchor_row: u16)
    ensures
        viewport.height <= anchor_row + MIN_HEIGHT ==> spec_resolved_side(
            viewport,
            anchor_row,
            SideBias::Below,
        ) == SideBias::Above,
        anchor_row < MIN_HEIGHT ==> spec_resolved_side(viewport, anchor_row, SideBias::Above)
            == SideBias::Below,
        viewport.height > anchor_row + MIN_HEIGHT ==> spec_resolved_side(
            viewport,
            anchor_row,
            SideBias::Below,
        ) == SideBias::Below,
        anchor_row >= MIN_HEIGHT ==> spec_resolved_side(viewport, anchor_row, SideBias::Above)
            == SideBias::Above,
{
}

/// Height available in the chosen direction, capped at `MAX_HEIGHT`: all rows
/// above the anchor, or all rows strictly below it.
pub open spec fn spec_raw_max_height(viewport: Rect, anchor_row: u16, side: SideBias) -> int {
    let avail = match side {
        SideBias::Above => anchor_row as int,
        SideBias::Below => max(viewport.height - 1 - anchor_row, 0),
    };
    min(avail, MAX_HEIGHT as int)
}

/// Width available, capped at `MAX_WIDTH` after a two-cell horizontal margin.
pub open spec fn spec_raw_max_width(viewport: Rect) -> int {
    min(max(viewport.width - 2, 0), MAX_WIDTH as int)
}

/// Borders are drawn only when asked for and only when both budgets exceed
/// three cells; panels too small to hold them meaningfully stay borderless.
pub open spec fn spec_borders_applied(
    viewport: Rect,
    anchor_row: u16,
    side: SideBias,
    wants_border: bool,
) -> bool {
    wants_border && spec_raw_max_height(viewport, anchor_row, side) > 3 && spec_raw_max_width(
        viewport,
    ) > 3
}

/// The space budget handed to the embedded content, after the border
/// reservation of two cells per axis when borders apply.
pub open spec fn spec_size_budget(
    viewport: Rect,
    anchor_row: u16,
    side: SideBias,
    wants_border: bool,
) -> (int, int) {
    let mw = spec_raw_max_width(viewport);
    let mh = spec_raw_max_height(viewport, anchor_row, side);
    if spec_borders_applied(viewport, anchor_row, side, wants_border) {
        (mw - 2, mh - 2)
    } else {
        (mw, mh)
    }
}

/// Computes the content's space budget for the chosen side, and whether
/// borders will be drawn.
pub fn size_budget(viewport: &Rect, anchor_row: u16, side: SideBias, wants_border: bool) -> (r: (
    u16,
    u16,
    bool,
))
    ensures
        r.2 == spec_borders_applied(*viewport, anchor_row, side, wants_border),
        (r.0 as int, r.1 as int) == spec_size_budget(*viewport, anchor_row, side, wants_border),
{
    let mut max_height: u16 = match side {
        SideBias::Above => anchor_row,
        SideBias::Below => {
            if viewport.height > anchor_row {
                viewport.height - 1 - anchor_row
            } else {
                0
            }
        },
    };
    if max_height > MAX_HEIGHT {
        max_height = MAX_HEIGHT;
    }
    let mut max_width: u16 = if viewport.width > 2 {
        viewport.width - 2
    } else {
        0
    };
    if max_width > MAX_WIDTH {
        max_width = MAX_WIDTH;
    }
    let borders = wants_border && max_height > 3 && max_width > 3;
    if borders {
        max_width = max_width - 2;
        max_height = max_height - 2;
    }
    (max_width, max_height, borders)
}

/// The popup's outer size once the content has reported its required size:
/// the reported width and height are re-clamped to the hard caps regardless
/// of the budget the content was asked with, then border cells are added
/// back.
pub open spec fn spec_clamped_size(borders: bool, child_w: u16, child_h: u16) -> (int, int) {
    let w0 = min(child_w as int, MAX_WIDTH as int);
    let h = if borders {
        min(child_h + 2, MAX_HEIGHT as int)
    } else {
        min(child_h as int, MAX_HEIGHT as int)
    };
    if borders {
        (w0 + 2, h)
    } else {
        (w0, h)
    }
}

/// Horizontal placement: start at the anchor column; if the popup would
/// stick out past the right edge, first shift it left just enough to fit,
/// and only then shrink its width.
pub open spec fn spec_horizontal(viewport: Rect, anchor_col: u16, w: int) -> (int, int) {
    if viewport.width > anchor_col + w + 2 {
        (anchor_col as int, w)
    } else {
        let x = max(viewport.width - (w + 2), 0);
        (x, max(viewport.width - (x + 2), 0))
    }
}

/// Vertical placement: above, the popup's bottom edge sits one row above the
/// anchor, truncated upward at the screen top; below, the top edge sits one
/// row beneath the anchor and the bottom is clamped to the viewport's bottom
/// edge.
pub open spec fn spec_vertical(viewport: Rect, anchor_row: u16, side: SideBias, h: int) -> (
    int,
    int,
) {
    match side {
        SideBias::Above => {
            let y = max(anchor_row - h, 0);
            (y, anchor_row - y)
        },
        SideBias::Below => {
            let y = anchor_row + 1;
            let y_max = min(viewport.spec_bottom(), h + y);
            (y, max(y_max - y, 0))
        },
    }
}

/// An integer-coordinate rectangle clipped into the viewport box. Keeps every
/// covered cell that lies in the viewport and drops the rest.
pub open spec fn spec_clip(viewport: Rect, x: int, y: int, w: int, h: int) -> Rect {
    let x1 = min(max(x, viewport.x as int), viewport.spec_right());
    let x2 = min(max(x + w, x1), viewport.spec_right());
    let y1 = min(max(y, viewport.y as int), viewport.spec_bottom());
    let y2 = min(max(y + h, y1), viewport.spec_bottom());
    Rect { x: x1 as u16, y: y1 as u16, width: (x2 - x1) as u16, height: (y2 - y1) as u16 }
}

/// The popup rectangle for a resolved side and a reported content size.
pub open spec fn spec_popup_area(
    viewport: Rect,
    anchor: Position,
    side: SideBias,
    borders: bool,
    child_w: u16,
    child_h: u16,
) -> Rect {
    let (w, h) = spec_clamped_size(borders, child_w, child_h);
    let (x, fw) = spec_horizontal(viewport, anchor.col, w);
    let (y, fh) = spec_vertical(viewport, anchor.row, side, h);
    spec_clip(viewport, x, y, fw, fh)
}

/// Computes the popup's screen rectangle. Always a sub-rectangle of the
/// viewport, whatever the anchor and the reported content size.
pub fn compute_area(
    viewport: &Rect,
    anchor: Position,
    side: SideBias,
    borders: bool,
    child_w: u16,
    child_h: u16,
) -> (area: Rect)
    requires
        viewport.wf(),
    ensures
        area == spec_popup_area(*viewport, anchor, side, borders, child_w, child_h),
        area.spec_within(*viewport),
        area.wf(),
{
    let (w, h) = outer_size(borders, child_w, child_h);
    let (x, fw) = horizontal_place(viewport, anchor.col, w);
    let (y, fh) = vertical_place(viewport, anchor.row, side, h);
    clip_to_viewport(viewport, x, y, fw, fh)
}

/// The popup's outer width and height for a reported content size.
fn outer_size(borders: bool, child_w: u16, child_h: u16) -> (r: (usize, usize))
    ensures
        (r.0 as int, r.1 as int) == spec_clamped_size(borders, child_w, child_h),
        r.0 <= MAX_WIDTH + 2,
        r.1 <= MAX_HEIGHT,
{
    let w0: usize = if (child_w as usize) < (MAX_WIDTH as usize) {
        child_w as usize
    } else {
        MAX_WIDTH as usize
    };
    let h0: usize = if borders {
        child_h as usize + 2
    } else {
        child_h as usize
    };
    let h: usize = if h0 < (MAX_HEIGHT as usize) {
        h0
    } else {
        MAX_HEIGHT as usize
    };
    let w: usize = if borders {
        w0 + 2
    } else {
        w0
    };
    (w, h)
}

/// Horizontal shift-then-shrink placement against the right edge.
fn horizontal_place(viewport: &Rect, anchor_col: u16, w: usize) -> (r: (usize, usize))
    requires
        w <= MAX_WIDTH + 2,
    ensures
        (r.0 as int, r.1 as int) == spec_horizontal(*viewport, anchor_col, w as int),
        r.0 <= u16::MAX,
        r.1 <= u16::MAX + 2,
{
    let vpw = viewport.width as usize;
    let col = anchor_col as usize;
    if vpw > col + w + 2 {
        (col, w)
    } else {
        let x = if vpw > w + 2 {
            vpw - (w + 2)
        } else {
            0
        };
        let fw = if vpw > x + 2 {
            vpw - (x + 2)
        } else {
            0
        };
        (x, fw)
    }
}

/// Vertical placement on the resolved side of the anchor row.
fn vertical_place(viewport: &Rect, anchor_row: u16, side: SideBias, h: usize) -> (r: (
    usize,
    usize,
))
    requires
        viewport.wf(),
        h <= MAX_HEIGHT,
    ensures
        (r.0 as int, r.1 as int) == spec_vertical(*viewport, anchor_row, side, h as int),
        r.0 <= u16::MAX + 1,
        r.1 <= u16::MAX,
{
    let row = anchor_row as usize;
    match side {
        SideBias::Above => {
            let y = if row > h {
                row - h
            } else {
                0
            };
            (y, row - y)
        },
        SideBias::Below => {
            let y = row + 1;
            let bottom = viewport.y as usize + viewport.height as usize;
            let y_max = if bottom < h + y {
                bottom
            } else {
                h + y
            };
            (y, if y_max > y {
                y_max - y
            } else {
                0
            })
        },
    }
}

/// Clips an integer-coordinate rectangle into the viewport box.
fn clip_to_viewport(viewport: &Rect, x: usize, y: usize, w: usize, h: usize) -> (area: Rect)
    requires
        viewport.wf(),
        x + w <= usize::MAX,
        y + h <= usize::MAX,
    ensures
        area == spec_clip(*viewport, x as int, y as int, w as int, h as int),
        area.spec_within(*viewport),
        area.wf(),
{
    let vx = viewport.x as usize;
    let vy = viewport.y as usize;
    let vright = vx + viewport.width as usize;
    let vbottom = vy + viewport.height as usize;

    let x1 = clamp_usize(x, vx, vright);
    let x2 = clamp_usize(x + w, x1, vright);
    let y1 = clamp_usize(y, vy, vbottom);
    let y2 = clamp_usize(y + h, y1, vbottom);

    Rect { x: x1 as u16, y: y1 as u16, width: (x2 - x1) as u16, height: (y2 - y1) as u16 }
}

/// `v` forced into the interval `[lo, hi]`.
fn clamp_usize(v: usize, lo: usize, hi: usize) -> (r: usize)
    requires
        lo <= hi,
    ensures
        r == min(max(v as int, lo as int), hi as int),
{
    if v < lo {
        lo
    } else if v > hi {
        hi
    } else {
        v
    }
}

} // verus!
