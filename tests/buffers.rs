use audio_processor::silence::{SilenceCounter, MAX_SILENCE_FRAMES};
use audio_processor::spectrogram::SpectrogramBuffer;
use audio_processor::window::CircularBuffer;

#[test]
fn circular_buffer_starts_filled() {
    let b: CircularBuffer<i32> = CircularBuffer::new(3, 0);
    assert_eq!(b.values(), &[0, 0, 0]);
    assert_eq!(b.capacity(), 3);
}

#[test]
fn circular_buffer_overwrites_oldest() {
    let mut b: CircularBuffer<i32> = CircularBuffer::new(3, 0);
    b.push(1);
    b.push(2);
    assert_eq!(b.values(), &[1, 2, 0]);
    b.push(3);
    b.push(4);
    assert_eq!(b.values(), &[4, 2, 3]);
}

#[test]
fn circular_buffer_of_one_slot() {
    let mut b: CircularBuffer<i32> = CircularBuffer::new(1, 9);
    b.push(5);
    b.push(6);
    assert_eq!(b.values(), &[6]);
}

#[test]
fn spectrogram_rolls_columns() {
    let mut s: SpectrogramBuffer<u8> = SpectrogramBuffer::new(3, 2, 0);
    assert_eq!(s.flattened(), vec![0, 0, 0, 0, 0, 0]);
    s.push_column(vec![1, 2]);
    assert_eq!(s.flattened(), vec![0, 0, 0, 0, 1, 2]);
    s.push_column(vec![3]);
    assert_eq!(s.flattened(), vec![0, 0, 1, 2, 3]);
}

#[test]
fn silence_forces_zero_after_limit() {
    let mut c = SilenceCounter::new();
    for _ in 0..(MAX_SILENCE_FRAMES - 1) {
        c.observe(true);
    }
    assert!(!c.is_silenced());
    c.observe(true);
    assert_eq!(c.frames, 100);
    assert!(c.is_silenced());
    c.observe(false);
    assert_eq!(c.frames, 0);
    assert!(!c.is_silenced());
}

#[test]
fn silence_count_stops_at_the_top() {
    let mut c = SilenceCounter { frames: u32::MAX };
    c.observe(true);
    assert_eq!(c.frames, u32::MAX);
}
