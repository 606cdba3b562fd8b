//! The harmonic test behind the vocal likelihood: fundamentals in the vocal
//! band whose even harmonics are strong too.
use vstd::prelude::*;
use crate::bins::{bin_ceil, bin_floor, clamp_to};

verus! {

/// The bin count that the vocal band's bin range is reckoned at.
pub const REFERENCE_BINS: usize = 1024;

/// The vocal band's first bin at the reference bin count (200 Hz, rounded down).
pub const VOCAL_MIN_BIN: usize = 9;

/// The vocal band's end bin at the reference bin count (6000 Hz, rounded up).
pub const VOCAL_MAX_BIN: usize = 279;

/// How many leading bins of the vocal band are tried as fundamentals.
pub const FUNDAMENTAL_SEARCH_BINS: usize = 135;

/// The vocal band's bounds are those of 200 Hz and 6000 Hz at the reference
/// bin count, and half the band is searched for fundamentals.
pub proof fn lemma_vocal_band_bounds()
    ensures
        VOCAL_MIN_BIN as int == bin_floor(200, REFERENCE_BINS as int),
        VOCAL_MAX_BIN as int == bin_ceil(6000, REFERENCE_BINS as int),
        FUNDAMENTAL_SEARCH_BINS as int == (VOCAL_MAX_BIN - VOCAL_MIN_BIN) as int / 2,
{
}

/// The part of a frame of `n_bins` bins that the harmonic test reads:
/// `[start, end)`, the vocal band cut at the end of the frame.
pub fn vocal_bins(n_bins: usize) -> (r: (usize, usize))
    ensures
        r.1 == clamp_to(VOCAL_MAX_BIN as int, n_bins as int),
        r.0 == clamp_to(VOCAL_MIN_BIN as int, r.1 as int),
{
    let end = if VOCAL_MAX_BIN < n_bins {
        VOCAL_MAX_BIN
    } else {
        n_bins
    };
    let start = if VOCAL_MIN_BIN < end {
        VOCAL_MIN_BIN
    } else {
        end
    };
    (start, end)
}

/// Whether position `i` of the vocal band holds a strong bin; positions past
/// the end hold none.
pub open spec fn strong(above: Seq<bool>, i: int) -> bool {
    0 <= i < above.len() && above[i]
}

/// How many of the 2nd, 4th and 6th harmonics of candidate `f` are strong. A
/// harmonic's position is the fundamental's absolute bin times its order.
pub open spec fn strong_harmonics(above: Seq<bool>, f: int) -> int {
    let base = f + VOCAL_MIN_BIN as int;
    (if strong(above, base * 2) {
        1int
    } else {
        0int
    }) + (if strong(above, base * 4) {
        1int
    } else {
        0int
    }) + (if strong(above, base * 6) {
        1int
    } else {
        0int
    })
}

/// A candidate counts when it is strong itself and at least two of its
/// harmonics are.
pub open spec fn is_vocal_fundamental(above: Seq<bool>, f: int) -> bool {
    strong(above, f) && strong_harmonics(above, f) >= 2
}

/// How many of the first `k` candidates count.
pub open spec fn fundamentals_below(above: Seq<bool>, k: int) -> nat
    decreases k,
{
    if k <= 0 {
        0
    } else {
        fundamentals_below(above, k - 1) + if is_vocal_fundamental(above, k - 1) {
            1nat
        } else {
            0nat
        }
    }
}

fn strong_at(above: &[bool], i: usize) -> (r: bool)
    ensures
        r == strong(above@, i as int),
{
    i < above.len() && above[i]
}

/// Counts the fundamentals of the vocal band. `above[i]` says whether bin
/// `i` of the band, scaled by the band's maximum, exceeds the harmonic threshold.
pub fn harmonic_count(above: &[bool]) -> (r: usize)
    ensures
        r == fundamentals_below(above@, FUNDAMENTAL_SEARCH_BINS as int),
        r <= FUNDAMENTAL_SEARCH_BINS,
{
    let mut count: usize = 0;
    let mut f: usize = 0;
    while f < FUNDAMENTAL_SEARCH_BINS
        invariant
            f <= FUNDAMENTAL_SEARCH_BINS,
            count == fundamentals_below(above@, f as int),
            count <= f,
        decreases FUNDAMENTAL_SEARCH_BINS - f,
    {
        if strong_at(above, f) {
            let base = f + VOCAL_MIN_BIN;
            let mut found: usize = 0;
            if strong_at(above, base * 2) {
                found = found + 1;
            }
            if strong_at(above, base * 4) {
                found = found + 1;
            }
            if strong_at(above, base * 6) {
                found = found + 1;
            }
            if found >= 2 {
                count = count + 1;
            }
        }
        f = f + 1;
    }
    count
}

} // verus!
