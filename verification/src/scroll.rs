//! Scroll state normalizer.
//!
//! The scroll position is carried as three independently-incremented
//! counters: coarse half-page units, finer quarter-page units, and residual
//! single lines. Input bindings bump one counter each without consulting the
//! current geometry; once per frame the sum is clamped against the content
//! length and re-derived into canonical units of the current page sizes.

use vstd::arithmetic::div_mod::{lemma_div_pos_is_pos, lemma_fundamental_div_mod, lemma_mod_bound};
use vstd::prelude::*;

verus! {

/// A scroll cursor in canonical three-tier form, plus the derived absolute
/// line offset it stands for.
#[derive(Clone, Copy, PartialEq, Eq, Structural, Debug)]
pub struct ScrollState {
    /// Coarse units worth half of the visible content height each.
    pub half_pages: isize,
    /// Fine units worth a quarter of the visible content height each.
    pub quarter_pages: isize,
    /// Leftover single lines.
    pub residual: usize,
    /// Absolute scroll offset in lines, clamped to `[0, max_scroll]`.
    pub absolute: usize,
}

/// The line offset a raw counter triple stands for, before clamping.
pub open spec fn spec_raw_absolute(
    half_pages: int,
    quarter_pages: int,
    residual: int,
    half_page_size: int,
    quarter_page_size: int,
) -> int {
    half_pages * half_page_size + quarter_pages * quarter_page_size + residual
}

/// `v` clamped into `[0, max]`.
pub open spec fn spec_clamp(v: int, max: int) -> int {
    if v < 0 {
        0
    } else if v > max {
        max
    } else {
        v
    }
}

/// The canonical state for a raw counter triple under a fixed geometry.
///
/// The clamped absolute offset is split again into the largest half-page
/// count, then the largest quarter-page count, then a residual; with a
/// degenerate geometry (a page size of zero) the counters are kept as they
/// are and the absolute offset is left at zero.
pub open spec fn spec_normalize(
    half_pages: int,
    quarter_pages: int,
    residual: int,
    half_page_size: int,
    quarter_page_size: int,
    max_scroll: int,
) -> (int, int, int, int) {
    if half_page_size > 0 && quarter_page_size > 0 {
        let absolute = spec_clamp(
            spec_raw_absolute(
                half_pages,
                quarter_pages,
                residual,
                half_page_size,
                quarter_page_size,
            ),
            max_scroll,
        );
        let rem = absolute % half_page_size;
        (absolute / half_page_size, rem / quarter_page_size, rem % quarter_page_size, absolute)
    } else {
        (half_pages, quarter_pages, residual, 0)
    }
}

impl ScrollState {
    /// The four counters as mathematical integers, in the order half pages,
    /// quarter pages, residual, absolute.
    pub open spec fn spec_view(self) -> (int, int, int, int) {
        (self.half_pages as int, self.quarter_pages as int, self.residual as int, self.absolute as int)
    }
}

/// Clamps the raw scroll sum against the content length and re-derives the
/// canonical counters from the current page sizes.
///
/// Page sizes are fractions of a cell-counted height and the maximum scroll
/// is a content line count held in memory, which is what the two bounds
/// demand.
pub fn normalize(
    half_pages: isize,
    quarter_pages: isize,
    residual: usize,
    half_page_size: usize,
    quarter_page_size: usize,
    max_scroll: usize,
) -> (s: ScrollState)
    requires
        half_page_size <= u16::MAX,
        quarter_page_size <= u16::MAX,
        max_scroll <= isize::MAX,
    ensures
        s.spec_view() == spec_normalize(
            half_pages as int,
            quarter_pages as int,
            residual as int,
            half_page_size as int,
            quarter_page_size as int,
            max_scroll as int,
        ),
        0 <= s.absolute <= max_scroll,
{
    if half_page_size == 0 || quarter_page_size == 0 {
        return ScrollState { half_pages, quarter_pages, residual, absolute: 0 };
    }
    proof {
        lemma_mul_magnitude(
            half_pages as int,
            half_page_size as int,
            0x8000_0000_0000_0000,
            0xffff,
        );
        lemma_mul_magnitude(
            quarter_pages as int,
            quarter_page_size as int,
            0x8000_0000_0000_0000,
            0xffff,
        );
    }
    let raw: i128 = (half_pages as i128) * (half_page_size as i128) + (quarter_pages as i128) * (
    quarter_page_size as i128) + (residual as i128);
    let clamped: i128 = if raw < 0 {
        0
    } else if raw > max_scroll as i128 {
        max_scroll as i128
    } else {
        raw
    };
    let absolute: usize = clamped as usize;
    let rem: usize = absolute % half_page_size;
    proof {
        lemma_div_pos_is_pos(absolute as int, half_page_size as int);
        lemma_div_pos_is_pos(rem as int, quarter_page_size as int);
        lemma_mod_bound(absolute as int, half_page_size as int);
        lemma_mod_bound(rem as int, quarter_page_size as int);
        vstd::arithmetic::div_mod::lemma_div_is_ordered(
            absolute as int,
            max_scroll as int,
            half_page_size as int,
        );
        vstd::arithmetic::div_mod::lemma_div_nonincreasing(
            absolute as int,
            half_page_size as int,
        );
        vstd::arithmetic::div_mod::lemma_div_nonincreasing(rem as int, quarter_page_size as int);
    }
    ScrollState {
        half_pages: (absolute / half_page_size) as isize,
        quarter_pages: (rem / quarter_page_size) as isize,
        residual: rem % quarter_page_size,
        absolute,
    }
}

/// The canonical counters reassemble exactly into the absolute offset they
/// were derived from, the residual is a proper remainder of a quarter page,
/// and the quarter-page count never reaches a half page's worth.
pub proof fn lemma_normalized_shape(
    half_pages: int,
    quarter_pages: int,
    residual: int,
    half_page_size: int,
    quarter_page_size: int,
    max_scroll: int,
)
    requires
        half_page_size > 0,
        quarter_page_size > 0,
        max_scroll >= 0,
    ensures
        ({
            let (h, q, r, a) = spec_normalize(
                half_pages,
                quarter_pages,
                residual,
                half_page_size,
                quarter_page_size,
                max_scroll,
            );
            &&& h * half_page_size + q * quarter_page_size + r == a
            &&& 0 <= r < quarter_page_size
            &&& 0 <= q * quarter_page_size < half_page_size
            &&& 0 <= a <= max_scroll
        }),
{
    let a = spec_clamp(
        spec_raw_absolute(half_pages, quarter_pages, residual, half_page_size, quarter_page_size),
        max_scroll,
    );
    let rem = a % half_page_size;
    let h = a / half_page_size;
    let q = rem / quarter_page_size;
    let r = rem % quarter_page_size;
    lemma_fundamental_div_mod(a, half_page_size);
    lemma_fundamental_div_mod(rem, quarter_page_size);
    lemma_mod_bound(a, half_page_size);
    lemma_mod_bound(rem, quarter_page_size);
    lemma_div_pos_is_pos(a, half_page_size);
    lemma_div_pos_is_pos(rem, quarter_page_size);
    assert(h * half_page_size + q * quarter_page_size + r == a) by (nonlinear_arith)
        requires
            a == half_page_size * h + rem,
            rem == quarter_page_size * q + r,
    ;
    assert(q * quarter_page_size == rem - r) by (nonlinear_arith)
        requires
            rem == quarter_page_size * q + r,
    ;
    assert(0 <= q * quarter_page_size < half_page_size);
}

/// `|a * b| <= m * n` whenever `|a| <= m` and `0 <= b <= n`.
proof fn lemma_mul_magnitude(a: int, b: int, m: int, n: int)
    by (nonlinear_arith)
    requires
        -m <= a <= m,
        0 <= b <= n,
        0 <= m,
    ensures
        -(m * n) <= a * b <= m * n,
{
}

/// Normalizing is idempotent: feeding a normalized state back through
/// `normalize` under the same geometry returns it unchanged.
pub proof fn lemma_normalize_idempotent(
    half_pages: int,
    quarter_pages: int,
    residual: int,
    half_page_size: int,
    quarter_page_size: int,
    max_scroll: int,
)
    requires
        max_scroll >= 0,
    ensures
        ({
            let (h, q, r, a) = spec_normalize(
                half_pages,
                quarter_pages,
                residual,
                half_page_size,
                quarter_page_size,
                max_scroll,
            );
            spec_normalize(h, q, r, half_page_size, quarter_page_size, max_scroll) == (h, q, r, a)
        }),
{
    if half_page_size > 0 && quarter_page_size > 0 {
        let (h, q, r, a) = spec_normalize(
            half_pages,
            quarter_pages,
            residual,
            half_page_size,
            quarter_page_size,
            max_scroll,
        );
        lemma_normalized_shape(
            half_pages,
            quarter_pages,
            residual,
            half_page_size,
            quarter_page_size,
            max_scroll,
        );
        // The reassembled sum is the clamped absolute offset, already inside
        // `[0, max_scroll]`, so the second clamp is the identity.
        assert(spec_raw_absolute(h, q, r, half_page_size, quarter_page_size) == a);
        assert(spec_clamp(a, max_scroll) == a);
        // Splitting the same absolute offset again yields the same counters.
        let rem = a % half_page_size;
        lemma_fundamental_div_mod(a, half_page_size);
        lemma_fundamental_div_mod(rem, quarter_page_size);
    }
}

} // verus!
