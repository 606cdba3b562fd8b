//! Decision logic of a real-time audio feature extractor: the detail tiers and
//! envelope presets it is configured with, frequency-to-bin ranges, the
//! fixed-capacity history window and the rolling spectrogram, the beat gate and
//! beat-time ring, the harmonic test behind vocal likelihood, the silence run,
//! the rate-limited snapshot gate, the setup-menu choices, and the dashboard's
//! state holder. Times are whole microseconds.
pub mod beat;
pub mod bins;
pub mod config;
pub mod emission;
pub mod setup;
pub mod silence;
pub mod spectrogram;
pub mod tui;
pub mod vocal;
pub mod window;
