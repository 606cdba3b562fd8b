//! Configuration values: how much detail each snapshot carries, and the
//! amplitude-envelope presets.
use vstd::prelude::*;

verus! {

/// How many of the expensive derived fields a snapshot carries. The schema of
/// the snapshot is the same at every level; excluded fields are zero-filled.
#[derive(Debug, Clone, Copy, PartialEq, Eq, Structural)]
pub enum DetailLevel {
    /// Core values only: no spectrogram and no frequency grid.
    Basic,
    /// Adds the frequency grid.
    Standard,
    /// Adds the rolling spectrogram as well.
    Full,
}

impl DetailLevel {
    pub open spec fn spec_includes_grid_map(self) -> bool {
        self != DetailLevel::Basic
    }

    pub open spec fn spec_includes_spectrogram(self) -> bool {
        self == DetailLevel::Full
    }

    /// Whether the 16x16 frequency grid is computed at this level.
    pub fn includes_grid_map(self) -> (r: bool)
        ensures
            r == self.spec_includes_grid_map(),
    {
        match self {
            DetailLevel::Basic => false,
            DetailLevel::Standard => true,
            DetailLevel::Full => true,
        }
    }

    /// Whether the rolling spectrogram buffer is computed at this level.
    pub fn includes_spectrogram(self) -> (r: bool)
        ensures
            r == self.spec_includes_spectrogram(),
    {
        match self {
            DetailLevel::Full => true,
            _ => false,
        }
    }
}

/// Fixed tuning presets for the amplitude envelope.
#[derive(Debug, Clone, Copy, PartialEq, Eq, Structural)]
pub enum EnvelopeProfile {
    /// Very smooth, for ambient music.
    Smooth,
    /// Balanced, for most music.
    Responsive,
    /// Fast attack, for electronic music.
    Punchy,
    /// Slow changes, for orchestral music.
    Sustained,
}

/// The envelope parameters a preset writes. Rates and the momentum factor are
/// in thousandths (250 stands for 0.25); the peak-hold time is in milliseconds.
#[derive(Debug, Clone, Copy, PartialEq, Eq, Structural)]
pub struct EnvelopeSettings {
    pub attack_permille: u16,
    pub decay_permille: u16,
    pub momentum_permille: u16,
    pub peak_hold_ms: u16,
}

pub open spec fn settings_of(
    attack_permille: u16,
    decay_permille: u16,
    momentum_permille: u16,
    peak_hold_ms: u16,
) -> EnvelopeSettings {
    EnvelopeSettings { attack_permille, decay_permille, momentum_permille, peak_hold_ms }
}

impl EnvelopeProfile {
    pub open spec fn spec_settings(self) -> EnvelopeSettings {
        match self {
            EnvelopeProfile::Smooth => settings_of(80, 30, 900, 150),
            EnvelopeProfile::Responsive => settings_of(250, 120, 600, 50),
            EnvelopeProfile::Punchy => settings_of(400, 80, 400, 80),
            EnvelopeProfile::Sustained => settings_of(120, 20, 950, 250),
        }
    }

    /// The attack rate, decay rate, momentum factor and peak-hold time that
    /// this preset overwrites in the envelope.
    pub fn settings(self) -> (r: EnvelopeSettings)
        ensures
            r == self.spec_settings(),
    {
        match self {
            EnvelopeProfile::Smooth => EnvelopeSettings {
                attack_permille: 80,
                decay_permille: 30,
                momentum_permille: 900,
                peak_hold_ms: 150,
            },
            EnvelopeProfile::Responsive => EnvelopeSettings {
                attack_permille: 250,
                decay_permille: 120,
                momentum_permille: 600,
                peak_hold_ms: 50,
            },
            EnvelopeProfile::Punchy => EnvelopeSettings {
                attack_permille: 400,
                decay_permille: 80,
                momentum_permille: 400,
                peak_hold_ms: 80,
            },
            EnvelopeProfile::Sustained => EnvelopeSettings {
                attack_permille: 120,
                decay_permille: 20,
                momentum_permille: 950,
                peak_hold_ms: 250,
            },
        }
    }
}

} // verus!
