//! Counting consecutive silent frames, after which the amplitude is forced to zero.
use vstd::prelude::*;

verus! {

/// After this many consecutive silent frames the amplitude is forced to zero.
pub const MAX_SILENCE_FRAMES: u32 = 100;

/// The run of consecutive silent frames up to now. The count stops growing at
/// `u32::MAX`, long after it has reached the forcing limit.
pub struct SilenceCounter {
    pub frames: u32,
}

impl SilenceCounter {
    pub fn new() -> (r: Self)
        ensures
            r.frames == 0,
    {
        SilenceCounter { frames: 0 }
    }

    /// Counts one more frame: a silent one extends the run, any other ends it.
    pub fn observe(&mut self, silent: bool)
        ensures
            silent ==> final(self).frames == if old(self).frames < u32::MAX {
                old(self).frames + 1
            } else {
                old(self).frames as int
            },
            !silent ==> final(self).frames == 0,
    {
        if silent {
            if self.frames < u32::MAX {
                self.frames = self.frames + 1;
            }
        } else {
            self.frames = 0;
        }
    }

    /// Whether the run of silence is long enough to force the amplitude to zero.
    pub fn is_silenced(&self) -> (r: bool)
        ensures
            r == (self.frames >= MAX_SILENCE_FRAMES),
    {
        self.frames >= MAX_SILENCE_FRAMES
    }
}

} // verus!
