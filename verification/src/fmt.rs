//! Audio format descriptions.
//!
//! An [`AudioDataFmt`] is an immutable description of a PCM stream's shape:
//! channel count, sample rate and samples per chunk. Every derived quantity
//! that the rest of the core depends on (frame sample count, frame duration)
//! is computed from these three values.

use crate::player::AudioConfig;
use vstd::prelude::*;

verus! {

/// Capability set of an audio format: the derived quantities and the codec
/// handles that delivery components need. Concrete codec implementations are
/// outside this core; implementors supply them.
pub trait AudioFmt {
    /// Samples in one output frame, all channels interleaved.
    fn frame_sample_count(&self) -> u32;

    /// Duration of one output frame in milliseconds.
    fn frame_duration(&self) -> u64;

    /// Identity of the codec this format belongs to.
    fn codec_name(&self) -> String;

    /// One frame of silence, already encoded.
    fn silence_bytes(&self) -> &[u8];

    /// Size in bytes of a typical encoded chunk.
    fn expected_chunk_size(&self) -> u32;

    /// Upper bound in bytes of an encoded chunk.
    fn maximum_chunk_size(&self) -> u32;

    /// Handle of a decoder for this format.
    fn create_decoder(&self) -> String;

    /// Handle of an encoder for this format under the given configuration.
    fn create_encoder(&self, config: AudioConfig) -> String;
}

/// Shape of a PCM stream: channel count, sample rate, samples per chunk.
///
/// The all-zero value is a valid "unset" placeholder; a format is only ever
/// used to derive frame sizes or durations when it is [`usable`](Self::usable).
#[derive(Clone, Copy, Debug, PartialEq, Eq, Structural, Hash)]
pub struct AudioDataFmt {
    pub channel_count: u32,
    pub sample_rate: u32,
    pub chunk_sample_count: u32,
}

impl AudioDataFmt {
    /// A format that can drive actual I/O: all components positive and the
    /// derived products representable.
    pub open spec fn usable(&self) -> bool {
        &&& self.channel_count > 0
        &&& self.sample_rate > 0
        &&& self.chunk_sample_count > 0
        &&& self.chunk_sample_count * self.channel_count * 2 <= u32::MAX
        &&& self.chunk_sample_count * 1000 <= u32::MAX
    }

    /// Samples in one output frame: `chunk_sample_count * channel_count`.
    pub open spec fn spec_frame_sample_count(&self) -> int {
        self.chunk_sample_count * self.channel_count
    }

    /// Duration of one output frame in ms: `chunk_sample_count * 1000 / sample_rate`.
    pub open spec fn spec_frame_duration(&self) -> int {
        self.chunk_sample_count * 1000 / self.sample_rate as int
    }

    /// A usable format's frame holds at least one sample.
    pub proof fn lemma_usable_frame_sample_count_pos(self)
        requires
            self.usable(),
        ensures
            1 <= self.spec_frame_sample_count() <= u32::MAX,
    {
        assert(self.chunk_sample_count * self.channel_count >= 1) by (nonlinear_arith)
            requires
                self.chunk_sample_count >= 1,
                self.channel_count >= 1,
        ;
    }

    pub fn new(channel_count: u32, sample_rate: u32, chunk_sample_count: u32) -> (r: AudioDataFmt)
        ensures
            r == (AudioDataFmt { channel_count, sample_rate, chunk_sample_count }),
    {
        AudioDataFmt { channel_count, sample_rate, chunk_sample_count }
    }

    /// Samples per frame, all channels interleaved.
    pub fn frame_sample_count(&self) -> (r: u32)
        requires
            self.usable(),
        ensures
            r == self.spec_frame_sample_count(),
    {
        self.chunk_sample_count * self.channel_count
    }

    /// Frame duration in milliseconds.
    pub fn frame_duration(&self) -> (r: u64)
        requires
            self.usable(),
        ensures
            r == self.spec_frame_duration(),
    {
        (self.chunk_sample_count * 1000 / self.sample_rate) as u64
    }
}

} // verus!
