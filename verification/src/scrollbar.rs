//! Scrollbar geometry and painting.
//!
//! The thumb's height is proportional to the visible share of the content,
//! never less than one cell and never more than the track; its start row
//! follows the absolute scroll offset with floor division. The scrollbar is
//! drawn only when the content is longer than the track.

use vstd::arithmetic::div_mod::{
    lemma_div_is_ordered, lemma_div_multiples_vanish, lemma_div_nonincreasing, lemma_div_pos_is_pos,
    lemma_fundamental_div_mod,
};
use vstd::math::{max, min};
use vstd::prelude::*;

use crate::geometry::Rect;
use crate::surface::{Color, Surface};

verus! {

/// Ceiling division for nonnegative integers.
pub open spec fn spec_div_ceil(a: int, b: int) -> int {
    if a % b == 0 {
        a / b
    } else {
        a / b + 1
    }
}

/// Thumb height for a track of `track` rows over `len` content lines:
/// `max(1, min(track, ceil(track^2 / len)))`.
pub open spec fn spec_thumb_height(track: int, len: int) -> int {
    max(1, min(track, spec_div_ceil(track * track, len)))
}

/// Thumb start row (relative to the track's top):
/// `(track - thumb) * scroll / max(1, len - track)`, by floor division,
/// then clamped to the track. A thumb that fills the track starts at its
/// top.
pub open spec fn spec_thumb_start(track: int, thumb: int, scroll: int, len: int) -> int {
    min(max(track - thumb, 0) * scroll / max(1, len - track), track)
}

/// Computes the thumb height.
pub fn thumb_height(track: u16, len: usize) -> (h: u16)
    requires
        len > 0,
    ensures
        h == spec_thumb_height(track as int, len as int),
        1 <= h,
        h <= max(track as int, 1),
{
    proof {
        crate::surface::lemma_u16_mul_bound(track as int, track as int);
    }
    let sq: usize = (track as usize) * (track as usize);
    let q: usize = sq / len;
    let ceil: usize = if sq % len == 0 {
        q
    } else {
        q + 1
    };
    proof {
        lemma_div_nonincreasing(sq as int, len as int);
    }
    let m: usize = if ceil < (track as usize) {
        ceil
    } else {
        track as usize
    };
    let h: usize = if m < 1 {
        1
    } else {
        m
    };
    h as u16
}

/// Computes the thumb's start row relative to the track's top.
pub fn thumb_start(track: u16, thumb: u16, scroll: usize, len: usize) -> (s: u16)
    ensures
        s == spec_thumb_start(track as int, thumb as int, scroll as int, len as int),
        s <= track,
{
    let span: u128 = if track > thumb {
        (track - thumb) as u128
    } else {
        0
    };
    let denom: u128 = if len > (track as usize) {
        (len - track as usize) as u128
    } else {
        1
    };
    proof {
        lemma_mul_le(span as int, scroll as int, 0xffff, u64::MAX as int);
    }
    let q: u128 = span * (scroll as u128) / denom;
    proof {
        lemma_div_pos_is_pos((span * (scroll as u128)) as int, denom as int);
    }
    if q < (track as u128) {
        q as u16
    } else {
        track
    }
}

/// When the content dwarfs the track (`len >= track^2`), the thumb shrinks
/// to its one-cell minimum.
pub proof fn lemma_thumb_minimal(track: int, len: int)
    requires
        len >= track * track,
        len >= 1,
    ensures
        spec_thumb_height(track, len) == 1,
{
    lemma_div_is_ordered(track * track, len, len);
    assert(len / len == 1) by {
        lemma_div_multiples_vanish(1, len);
    }
    if track * track == len {
        assert(spec_div_ceil(track * track, len) == 1) by {
            lemma_fundamental_div_mod(track * track, len);
        }
    } else {
        assert(track * track >= 0) by (nonlinear_arith);
        assert(track * track / len == 0) by {
            vstd::arithmetic::div_mod::lemma_basic_div(track * track, len);
        }
    }
}

/// Nonnegative factors below their bounds keep the product below the bound
/// product.
proof fn lemma_mul_le(a: int, b: int, m: int, n: int)
    by (nonlinear_arith)
    requires
        0 <= a <= m,
        0 <= b <= n,
    ensures
        0 <= a * b <= m * n,
{
}

/// When the content fits the track (`len <= track`), the thumb fills the
/// whole track. (In that case the scrollbar is not drawn at all: it is drawn
/// if and only if `len > track`.)
pub proof fn lemma_thumb_full(track: int, len: int)
    requires
        1 <= len <= track,
    ensures
        spec_thumb_height(track, len) == track,
{
    assert(track * len <= track * track) by (nonlinear_arith)
        requires
            1 <= len <= track,
    ;
    assert(track == track * len / len) by {
        lemma_div_multiples_vanish(track, len);
    }
    lemma_div_is_ordered(track * len, track * track, len);
    assert(track * track / len >= track);
    lemma_fundamental_div_mod(track * track, len);
}

/// The glyph the scrollbar paints: a half block hugging the popup's edge,
/// on the left of the cell when a border is drawn and on the right
/// otherwise.
pub open spec fn spec_scrollbar_symbol(borders: bool) -> char {
    if borders {
        '▌'
    } else {
        '▐'
    }
}

/// The cell content of the scrollbar column at row offset `i` of the track:
/// thumb glyph in the thumb color inside `[start, start + thumb)`; otherwise
/// a track glyph in the track color when there is no border, and no write at
/// all when a border delimits the popup.
pub open spec fn spec_scrollbar_row(
    start: int,
    thumb: int,
    borders: bool,
    i: int,
    thumb_color: Color,
    track_color: Color,
) -> Option<(char, Color)> {
    if start <= i < start + thumb {
        Some((spec_scrollbar_symbol(borders), thumb_color))
    } else if !borders {
        Some((spec_scrollbar_symbol(borders), track_color))
    } else {
        None
    }
}

/// Paints the scrollbar along the column `x`, rows `y..y + track`, replacing
/// only symbol and foreground of the cells it touches and nothing outside
/// that column span.
pub fn paint(
    surface: &mut Surface,
    x: u16,
    y: u16,
    track: u16,
    start: u16,
    thumb: u16,
    borders: bool,
    thumb_color: Color,
    track_color: Color,
)
    requires
        old(surface).wf(),
        x < old(surface).width,
        y + track <= old(surface).height,
    ensures
        final(surface).wf(),
        final(surface).spec_same_outside(
            *old(surface),
            Rect { x, y, width: 1, height: track },
        ),
        forall|cy: int|
            y <= cy < y + track ==> #[trigger] final(surface).spec_cell(x as int, cy) == (
            match spec_scrollbar_row(
                start as int,
                thumb as int,
                borders,
                cy - y,
                thumb_color,
                track_color,
            ) {
                Some(sym_fg) => crate::surface::Cell {
                    symbol: sym_fg.0,
                    fg: sym_fg.1,
                    bg: old(surface).spec_cell(x as int, cy).bg,
                },
                None => old(surface).spec_cell(x as int, cy),
            }),
{
    let sym: char = if borders {
        '▌'
    } else {
        '▐'
    };
    let mut i: u16 = 0;
    while i < track
        invariant
            surface.wf(),
            i <= track,
            x < surface.width,
            y + track <= surface.height,
            surface.width == old(surface).width,
            surface.height == old(surface).height,
            sym == spec_scrollbar_symbol(borders),
            forall|cx: int, cy: int|
                0 <= cx < surface.width && 0 <= cy < surface.height && !(Rect {
                    x,
                    y,
                    width: 1,
                    height: track,
                }).spec_contains(cx, cy) ==> surface.spec_cell(cx, cy) == old(surface).spec_cell(
                    cx,
                    cy,
                ),
            forall|cy: int|
                y <= cy < y + i ==> #[trigger] surface.spec_cell(x as int, cy) == (
                match spec_scrollbar_row(
                    start as int,
                    thumb as int,
                    borders,
                    cy - y,
                    thumb_color,
                    track_color,
                ) {
                    Some(sym_fg) => crate::surface::Cell {
                        symbol: sym_fg.0,
                        fg: sym_fg.1,
                        bg: old(surface).spec_cell(x as int, cy).bg,
                    },
                    None => old(surface).spec_cell(x as int, cy),
                }),
            forall|cy: int|
                y + i <= cy < y + track ==> #[trigger] surface.spec_cell(x as int, cy) == old(
                    surface,
                ).spec_cell(x as int, cy),
        decreases track - i,
    {
        let in_thumb = start <= i && (i as usize) < (start as usize) + (thumb as usize);
        if in_thumb {
            surface.put_symbol_fg(x, y + i, sym, thumb_color);
        } else if !borders {
            surface.put_symbol_fg(x, y + i, sym, track_color);
        }
        i = i + 1;
    }
}

} // verus!
