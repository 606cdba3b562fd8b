use audio_processor::beat::{is_beat_candidate, BeatIntervals, BeatTimes, MIN_BEAT_INTERVAL_US};
use audio_processor::emission::EmissionGate;

#[test]
fn gate_emits_first_due_frame() {
    let mut gate: EmissionGate<u32> = EmissionGate::new(10_000);
    assert_eq!(gate.offer(10_000, 1), Some(1));
    assert_eq!(gate.last_update_us, 10_000);
    assert_eq!(gate.pending, None);
}

#[test]
fn gate_holds_back_frame_inside_interval() {
    let mut gate: EmissionGate<u32> = EmissionGate::new(10_000);
    assert_eq!(gate.offer(5_000, 7), None);
    assert_eq!(gate.pending, Some(7));
    assert_eq!(gate.last_update_us, 0);
}

#[test]
fn burst_inside_one_interval_emits_at_most_once_and_latest_wins() {
    // markers rise with time; frames span less than one interval
    let mut gate: EmissionGate<u32> = EmissionGate::new(100_000);
    let mut emitted = Vec::new();
    for k in 0..10u32 {
        let now = 1_000_000 + (k as u64) * 9_000;
        if let Some(s) = gate.offer(now, k) {
            emitted.push(s);
        }
    }
    assert_eq!(emitted, vec![0]);
    assert_eq!(gate.take_pending(), Some(9));
    assert_eq!(gate.take_pending(), None);
}

#[test]
fn emitted_snapshot_is_the_current_frame() {
    let mut gate: EmissionGate<u32> = EmissionGate::new(100_000);
    assert_eq!(gate.offer(1_000_000, 1), Some(1));
    assert_eq!(gate.offer(1_050_000, 2), None);
    assert_eq!(gate.offer(1_100_000, 3), Some(3));
    assert_eq!(gate.pending, Some(2));
}

#[test]
fn unthrottled_gate_emits_every_frame() {
    let mut gate: EmissionGate<u32> = EmissionGate::new(0);
    for k in 0..5u32 {
        assert_eq!(gate.offer(1_000 + k as u64, k), Some(k));
    }
    assert_eq!(gate.pending, None);
}

#[test]
fn frame_before_last_emission_is_held_back() {
    let mut gate: EmissionGate<u32> = EmissionGate::new(0);
    assert_eq!(gate.offer(5_000, 1), Some(1));
    assert_eq!(gate.offer(4_000, 2), None);
    assert_eq!(gate.pending, Some(2));
}

#[test]
fn beat_needs_every_condition() {
    assert!(is_beat_candidate(true, true, true, 1_000_000, None));
    assert!(!is_beat_candidate(false, true, true, 1_000_000, None));
    assert!(!is_beat_candidate(true, false, true, 1_000_000, None));
    assert!(!is_beat_candidate(true, true, false, 1_000_000, None));
}

#[test]
fn beat_suppressed_within_minimum_interval() {
    let last = 5_000_000u64;
    assert!(!is_beat_candidate(true, true, true, last + 100_000, Some(last)));
    assert!(!is_beat_candidate(true, true, true, last + MIN_BEAT_INTERVAL_US, Some(last)));
    assert!(is_beat_candidate(true, true, true, last + MIN_BEAT_INTERVAL_US + 1, Some(last)));
    assert!(!is_beat_candidate(true, true, true, last - 1, Some(last)));
}

#[test]
fn beat_times_prune_by_age() {
    let mut beats = BeatTimes::new();
    beats.record(1_000_000, true);
    beats.record(1_500_000, true);
    beats.record(1_700_000, false);
    assert_eq!(beats.times, vec![1_000_000, 1_500_000]);
    assert_eq!(beats.last_beat_us, Some(1_500_000));
    beats.record(2_000_000, true);
    assert_eq!(beats.times, vec![1_500_000, 2_000_000]);
    assert_eq!(beats.last_beat_us, Some(2_000_000));
}

#[test]
fn non_candidate_leaves_beat_times_alone() {
    let mut beats = BeatTimes::new();
    beats.record(3_000_000, false);
    assert!(beats.times.is_empty());
    assert_eq!(beats.last_beat_us, None);
}

#[test]
fn intervals_skip_short_gaps() {
    let beats = BeatTimes {
        times: vec![1_000_000, 1_050_000, 1_550_000, 2_050_000],
        last_beat_us: Some(2_050_000),
    };
    assert_eq!(beats.intervals(), BeatIntervals { count: 2, total_us: 1_000_000 });
}

#[test]
fn intervals_of_fewer_than_two_beats_are_empty() {
    let beats = BeatTimes { times: vec![1_000_000], last_beat_us: Some(1_000_000) };
    assert_eq!(beats.intervals(), BeatIntervals { count: 0, total_us: 0 });
    assert_eq!(BeatTimes::new().intervals(), BeatIntervals { count: 0, total_us: 0 });
}

#[test]
fn static_tone_without_flux_never_beats() {
    // two seconds at 60 frames per second, loud and steady, with no spectral flux
    let mut beats = BeatTimes::new();
    for frame in 0..120u64 {
        let now = 1_000_000 + frame * 1_000_000 / 60;
        let candidate = is_beat_candidate(true, true, false, now, beats.last_beat_us);
        assert!(!candidate);
        beats.record(now, candidate);
    }
    assert!(beats.times.is_empty());
    assert_eq!(beats.last_beat_us, None);
    assert_eq!(beats.intervals(), BeatIntervals { count: 0, total_us: 0 });
}

#[test]
fn steady_beats_keep_a_one_second_ring() {
    // a candidate every 250 ms: each one is let through, and the ring keeps the last second
    let mut beats = BeatTimes::new();
    for k in 0..8u64 {
        let now = 2_000_000 + k * 250_000;
        let candidate = is_beat_candidate(true, true, true, now, beats.last_beat_us);
        assert!(candidate);
        beats.record(now, candidate);
    }
    assert_eq!(beats.times, vec![3_000_000, 3_250_000, 3_500_000, 3_750_000]);
    assert_eq!(beats.intervals(), BeatIntervals { count: 3, total_us: 750_000 });
}
