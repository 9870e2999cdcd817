//! Audio sample formats and their frame sizes.

use vstd::prelude::*;

verus! {

/// The sample format of a wave buffer's data.
#[derive(Clone, Copy, Debug, PartialEq, Eq, Structural)]
pub enum AudioFormat {
    /// 8-bit PCM, one channel.
    PCM8Mono,
    /// 8-bit PCM, two channels.
    PCM8Stereo,
    /// 16-bit PCM, one channel.
    PCM16Mono,
    /// 16-bit PCM, two channels.
    PCM16Stereo,
}

impl AudioFormat {
    /// Bytes in one sample frame (one sample across all channels).
    pub open spec fn spec_sample_size(self) -> u8 {
        match self {
            AudioFormat::PCM8Mono => 1,
            AudioFormat::PCM8Stereo => 2,
            AudioFormat::PCM16Mono => 2,
            AudioFormat::PCM16Stereo => 4,
        }
    }

    /// Size in bytes of one sample frame for this format; never zero.
    pub fn sample_size(&self) -> (r: u8)
        ensures
            r == self.spec_sample_size(),
            r > 0,
    {
        match self {
            AudioFormat::PCM8Mono => 1,
            AudioFormat::PCM8Stereo => 2,
            AudioFormat::PCM16Mono => 2,
            AudioFormat::PCM16Stereo => 4,
        }
    }
}

} // verus!
