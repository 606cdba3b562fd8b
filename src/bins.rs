//! Frequency-to-bin arithmetic for a half-spectrum of `n` bins taken at the
//! fixed sample rate: each bin spans `sample_rate / (2 n)` Hz.
use vstd::prelude::*;

verus! {

/// The sample rate, in Hz, that every frame is taken at.
pub const SAMPLE_RATE_HZ: u64 = 44100;

/// The bin that a frequency falls in, rounded down: `floor(hz / bin_width)`.
pub open spec fn bin_floor(hz: int, n_bins: int) -> int {
    (hz * 2 * n_bins) / SAMPLE_RATE_HZ as int
}

/// `ceil(hz / bin_width)`.
pub open spec fn bin_ceil(hz: int, n_bins: int) -> int {
    (hz * 2 * n_bins + SAMPLE_RATE_HZ as int - 1) / SAMPLE_RATE_HZ as int
}

pub open spec fn clamp_to(x: int, n: int) -> int {
    if x < n {
        x
    } else {
        n
    }
}

/// The range of bins `[start, end)` that a band from `min_hz` to `max_hz`
/// covers: from the bin of `min_hz` rounded down to that of `max_hz` rounded
/// up, each cut at the number of bins. The range is empty when `start >= end`.
pub fn band_bins(min_hz: u32, max_hz: u32, n_bins: usize) -> (r: (usize, usize))
    ensures
        r.0 == clamp_to(bin_floor(min_hz as int, n_bins as int), n_bins as int),
        r.1 == clamp_to(bin_ceil(max_hz as int, n_bins as int), n_bins as int),
{
    let n = n_bins as u128;
    let rate = SAMPLE_RATE_HZ as u128;
    assert(min_hz as int * 2 * n_bins as int <= 0x1_0000_0000 * 2 * 0x1_0000_0000_0000_0000)
        by (nonlinear_arith)
        requires
            min_hz < 0x1_0000_0000,
            n_bins < 0x1_0000_0000_0000_0000,
    ;
    assert(max_hz as int * 2 * n_bins as int <= 0x1_0000_0000 * 2 * 0x1_0000_0000_0000_0000)
        by (nonlinear_arith)
        requires
            max_hz < 0x1_0000_0000,
            n_bins < 0x1_0000_0000_0000_0000,
    ;
    let lo = (min_hz as u128) * 2 * n / rate;
    let hi = ((max_hz as u128) * 2 * n + rate - 1) / rate;
    let start = if lo < n {
        lo as usize
    } else {
        n_bins
    };
    let end = if hi < n {
        hi as usize
    } else {
        n_bins
    };
    (start, end)
}

} // verus!
