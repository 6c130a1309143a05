//! Per-track player configuration.
//!
//! [`AudioConfig`] is supplied once per track by the caller and fixes the
//! output format, encoder quality and hot-swap behaviour; [`AudioPlayerOpts`]
//! carries the player-level knobs (volume, buffer duration override).

use crate::fmt::AudioDataFmt;
use vstd::prelude::*;

verus! {

/// Highest admissible Opus encoder quality.
pub const OPUS_QUALITY_MAX: u8 = 10;

/// Quality levels of the resampling stage.
#[derive(Clone, Copy, Debug, PartialEq, Eq, Structural)]
pub enum ResamplingQuality {
    HIGH,
    MEDIUM,
    LOW,
}

/// Configuration a caller supplies once per track.
///
/// `buf_duration` stands in for a caller-chosen buffer policy: when present,
/// it overrides the default target duration the frame buffer is sized from.
pub struct AudioConfig {
    pub resample_quality: ResamplingQuality,
    pub opus_quality: u8,
    pub output_fmt: AudioDataFmt,
    pub hotswap: bool,
    pub buf_duration: Option<u32>,
}

impl Default for AudioConfig {
    /// Lowest resampling cost, maximum Opus quality, unset output format,
    /// no hot-swap, no buffer override.
    fn default() -> (r: Self)
        ensures
            r.resample_quality == ResamplingQuality::LOW,
            r.opus_quality == OPUS_QUALITY_MAX,
            r.output_fmt == (AudioDataFmt { channel_count: 0, sample_rate: 0, chunk_sample_count: 0 }),
            !r.hotswap,
            r.buf_duration is None,
    {
        AudioConfig {
            resample_quality: ResamplingQuality::LOW,
            opus_quality: OPUS_QUALITY_MAX,
            output_fmt: AudioDataFmt::new(0, 0, 0),
            hotswap: false,
            buf_duration: None,
        }
    }
}

/// Player-level options shared across the tracks of one player.
pub struct AudioPlayerOpts {
    /// Playback volume, 0 to 100.
    pub volume: u16,
    /// Target buffered duration in ms, when the caller overrides the default.
    pub buf_duration: Option<u32>,
}

impl AudioPlayerOpts {
    pub fn new() -> (r: Self)
        ensures
            r.volume == 100,
            r.buf_duration is None,
    {
        AudioPlayerOpts { volume: 100u16, buf_duration: None }
    }
}

} // verus!
