//! Beat bookkeeping on integer timestamps: the minimum-interval gate on beat
//! candidacy, the age-pruned ring of beat times, and the inter-beat intervals
//! that the beats-per-second estimate is taken from.
use vstd::prelude::*;

verus! {

/// A beat is never detected less than this long after the last one (0.2 s).
pub const MIN_BEAT_INTERVAL_US: u64 = 200_000;

/// Beat times older than this, relative to the newest beat, are dropped (1.0 s).
pub const BEAT_TIME_WINDOW_US: u64 = 1_000_000;

/// Inter-beat intervals of this length or shorter are ignored by the
/// beats-per-second estimate (0.1 s).
pub const MIN_BPS_INTERVAL_US: u64 = 100_000;

/// Whether a frame at `now_us` lies far enough after the last beat. With no
/// beat yet, the elapsed time counts as unbounded.
pub open spec fn spaced_from_last_beat(now_us: u64, last_beat_us: Option<u64>) -> bool {
    match last_beat_us {
        None => true,
        Some(last) => now_us as int - last as int > MIN_BEAT_INTERVAL_US as int,
    }
}

/// Decides beat candidacy. The three level tests are made by the caller on the
/// frame's values: the audio is active (smoothed amplitude above its threshold),
/// the weighted kick/snare/hihat ratio exceeds its threshold, and the spectral
/// flux exceeds its threshold. A frame is a candidate iff all three hold and the
/// frame lies more than the minimum interval after the last beat.
pub fn is_beat_candidate(
    audio_active: bool,
    ratio_exceeded: bool,
    flux_exceeded: bool,
    now_us: u64,
    last_beat_us: Option<u64>,
) -> (r: bool)
    ensures
        r == (audio_active && ratio_exceeded && flux_exceeded && spaced_from_last_beat(
            now_us,
            last_beat_us,
        )),
        last_beat_us matches Some(last) && now_us as int - last as int <= MIN_BEAT_INTERVAL_US
            ==> !r,
{
    let spaced = match last_beat_us {
        None => true,
        Some(last) => now_us > last && now_us - last > MIN_BEAT_INTERVAL_US,
    };
    audio_active && ratio_exceeded && flux_exceeded && spaced
}

/// Whether a beat at `t` is recent enough to stay in the ring when the newest
/// beat is at `now_us`.
pub open spec fn within_window(now_us: u64, t: u64) -> bool {
    (now_us as int) - (t as int) < BEAT_TIME_WINDOW_US as int
}

/// The number of inter-beat intervals of `times` longer than the minimum.
pub open spec fn interval_count(times: Seq<u64>) -> nat
    decreases times.len(),
{
    if times.len() < 2 {
        0
    } else {
        let d = times.last() as int - times[times.len() - 2] as int;
        interval_count(times.drop_last()) + if d > MIN_BPS_INTERVAL_US as int {
            1nat
        } else {
            0nat
        }
    }
}

/// The total length of the inter-beat intervals of `times` longer than the minimum.
pub open spec fn interval_total(times: Seq<u64>) -> int
    decreases times.len(),
{
    if times.len() < 2 {
        0
    } else {
        let d = times.last() as int - times[times.len() - 2] as int;
        interval_total(times.drop_last()) + if d > MIN_BPS_INTERVAL_US as int {
            d
        } else {
            0
        }
    }
}

/// The inter-beat intervals that the beats-per-second estimate averages: their
/// number and their total length in microseconds.
#[derive(Debug, Clone, Copy, PartialEq, Eq, Structural)]
pub struct BeatIntervals {
    pub count: u64,
    pub total_us: u128,
}

/// The recent beat times, in the order they were detected, and the time of the
/// last beat.
pub struct BeatTimes {
    pub times: Vec<u64>,
    pub last_beat_us: Option<u64>,
}

impl BeatTimes {
    /// No beat yet.
    pub fn new() -> (r: Self)
        ensures
            r.times@.len() == 0,
            r.last_beat_us is None,
    {
        BeatTimes { times: Vec::new(), last_beat_us: None }
    }

    /// Records the outcome of a frame at `now_us`. On a candidate the time is
    /// appended, every time older than the window relative to `now_us` is
    /// dropped, and `now_us` becomes the last beat. Otherwise nothing changes.
    pub fn record(&mut self, now_us: u64, is_candidate: bool)
        ensures
            is_candidate ==> {
                &&& final(self).times@ == old(self).times@.push(now_us).filter(
                    |t: u64| within_window(now_us, t),
                )
                &&& final(self).last_beat_us == Some(now_us)
                &&& final(self).times@.len() > 0
                &&& final(self).times@.last() == now_us
                &&& forall|i: int|
                    0 <= i < final(self).times@.len() ==> within_window(
                        now_us,
                        #[trigger] final(self).times@[i],
                    )
            },
            !is_candidate ==> *final(self) == *old(self),
    {
        if is_candidate {
            self.times.push(now_us);
            let ghost all = self.times@;
            let mut kept: Vec<u64> = Vec::new();
            let mut i: usize = 0;
            while i < self.times.len()
                invariant
                    self.times@ == all,
                    0 <= i <= all.len(),
                    kept@ == all.take(i as int).filter(|t: u64| within_window(now_us, t)),
                decreases all.len() - i,
            {
                let t = self.times[i];
                proof {
                    let s = all.take(i + 1);
                    assert(s.drop_last() == all.take(i as int));
                    assert(s.last() == t);
                    reveal(Seq::filter);
                }
                if t > now_us || now_us - t < BEAT_TIME_WINDOW_US {
                    kept.push(t);
                }
                i = i + 1;
            }
            proof {
                let pred = |t: u64| within_window(now_us, t);
                assert(all.take(all.len() as int) == all);
                assert(all.last() == now_us);
                reveal(Seq::filter);
                assert(all.filter(pred) == all.drop_last().filter(pred).push(now_us));
                assert forall|i: int| 0 <= i < kept@.len() implies within_window(
                    now_us,
                    #[trigger] kept@[i],
                ) by {
                    all.lemma_filter_pred(pred, i);
                }
            }
            self.times = kept;
            self.last_beat_us = Some(now_us);
        }
    }

    /// The intervals between consecutive recorded beats that are longer than
    /// the minimum, counted and summed.
    pub fn intervals(&self) -> (r: BeatIntervals)
        ensures
            r.count == interval_count(self.times@),
            r.total_us == interval_total(self.times@),
    {
        let mut count: u64 = 0;
        let mut total: u128 = 0;
        let n = self.times.len();
        if n < 2 {
            return BeatIntervals { count: 0, total_us: 0 };
        }
        let mut i: usize = 1;
        while i < n
            invariant
                n == self.times@.len(),
                1 <= i <= n,
                count == interval_count(self.times@.take(i as int)),
                total == interval_total(self.times@.take(i as int)),
                count <= i,
                total <= i * 0x1_0000_0000_0000_0000,
            decreases n - i,
        {
            let prev = self.times[i - 1];
            let cur = self.times[i];
            let ghost s = self.times@.take(i + 1);
            proof {
                assert(s.drop_last() == self.times@.take(i as int));
                assert(s.last() == cur && s[s.len() - 2] == prev);
            }
            if cur > prev && cur - prev > MIN_BPS_INTERVAL_US {
                count = count + 1;
                total = total + (cur - prev) as u128;
            }
            proof {
                assert(total <= (i + 1) * 0x1_0000_0000_0000_0000) by (nonlinear_arith)
                    requires
                        total <= i * 0x1_0000_0000_0000_0000 + 0x1_0000_0000_0000_0000,
                ;
            }
            i = i + 1;
        }
        proof {
            assert(self.times@.take(n as int) == self.times@);
        }
        BeatIntervals { count, total_us: total }
    }
}

} // verus!
