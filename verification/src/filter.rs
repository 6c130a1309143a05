//! The PCM filter chain and its terminal stage.
//!
//! A chain of filters transforms raw decoded samples and ends in the
//! [`FinalPCMFilter`], which converts scaled samples to 16-bit linear PCM,
//! accumulates them into fixed-size windows of `frame_sample_count` samples,
//! stamps each window with `timecode_base + sample_offset * 1000 /
//! sample_rate`, and deposits the finished [`Frame`] into the track's
//! [`AbstractFrameBuf`]. A seek resets the accumulation and, when the seek
//! landed earlier than requested, arms a count of samples to discard so the
//! output timecodes resume at `max(requested, provided)`.
//!
//! Samples enter the terminal stage in scaled integer form: the sample value
//! multiplied by 32768, as a decoder hands it over. Conversion to 16-bit
//! saturates at the signed 16-bit range; it never wraps.

use crate::err::PlayerFrameError;
use crate::fmt::AudioDataFmt;
use crate::playback::{AbstractFrameBuf, BufView, Frame, FrameView, ProcessingContext};
use crate::track::TrackInfo;
use vstd::prelude::*;

verus! {

/// Largest timecode, in ms, the chain computes with; about 34 years.
pub const MAX_TIMECODE_MS: u64 = 0x100_0000_0000;

/// Largest sample offset the chain computes with.
pub const MAX_SAMPLE_OFFSET: u64 = 0x100_0000_0000;

/// A stage of the filter chain.
pub trait Filter {
    /// Indicates that the next samples are not continuous from the prior
    /// samples: `requested_time` is the timecode in ms the seek was requested
    /// at, `provided_time` the timecode it was actually performed at.
    fn seek_performed(&mut self, requested_time: u64, provided_time: u64);

    /// Flushes everything buffered to the output.
    fn flush(&mut self) -> Result<(), PlayerFrameError>;

    /// Releases the resources of this stage; idempotent.
    fn close(&mut self);
}

/// A stage fed with interleaved PCM.
pub trait PCMFilter: Filter {
    /// Pushes `input[offset..offset + length]` through this stage.
    fn process_at(&mut self, input: &[i32], offset: usize, length: usize) -> Result<
        (),
        PlayerFrameError,
    >;

    /// Pushes all of `input` through this stage.
    fn process_all(&mut self, input: &[i32]) -> Result<(), PlayerFrameError>;
}

/// A stage fed with per-channel PCM.
pub trait SplitPCMFilter: Filter {
    /// Pushes a window of each channel's samples through this stage.
    fn process_channels(&mut self, input: &[Vec<i32>], offset: usize, length: usize) -> Result<
        (),
        PlayerFrameError,
    >;
}

/// Sample representations a filter stage can be fed with.
pub trait PCMData {

}

impl PCMData for i16 {

}

impl PCMData for i32 {

}

/// A stage that accepts interleaved and per-channel PCM alike.
pub trait UniversalPCMFilter: PCMFilter + SplitPCMFilter {

}

/// Builds a filter chain for one track. May be called several times during
/// playback (hot-swap); every stage sends its output onward until the
/// terminal stage deposits frames into the frame buffer.
pub trait PCMFilterFactory {
    /// Builds the chain for `track` with output format `fmt`, ending in
    /// `output`; returns the chain's entry stage.
    fn build_chain(
        &self,
        track: Option<TrackInfo>,
        fmt: AudioDataFmt,
        output: FinalPCMFilter,
    ) -> FinalPCMFilter;
}

/// Saturation of a scaled sample to the signed 16-bit range.
pub open spec fn spec_clamp_sample(scaled: int) -> int {
    if scaled > 32767 {
        32767
    } else if scaled < -32768 {
        -32768
    } else {
        scaled
    }
}

/// Converts a scaled sample (the sample value times 32768) to a 16-bit
/// linear PCM sample, saturating at the signed 16-bit range.
pub fn decode_sample(scaled: i32) -> (r: i16)
    ensures
        r == spec_clamp_sample(scaled as int),
{
    if scaled > 32767 {
        32767
    } else if scaled < -32768 {
        -32768
    } else {
        scaled as i16
    }
}

/// The 16-bit conversion is monotonic and saturating: it preserves sample
/// order and always lands in the signed 16-bit range, so it never wraps.
pub proof fn lemma_decode_sample_monotonic(a: int, b: int)
    requires
        a <= b,
    ensures
        spec_clamp_sample(a) <= spec_clamp_sample(b),
        -32768 <= spec_clamp_sample(a) <= 32767,
        -32768 <= a <= 32767 ==> spec_clamp_sample(a) == a,
{
}

/// Little-endian two's-complement encoding of a 16-bit sample value.
pub open spec fn spec_sample_bytes(m: int) -> Seq<u8> {
    let u = (m + 0x10000) % 0x10000;
    seq![(u % 0x100) as u8, (u / 0x100) as u8]
}

/// Encodes one 16-bit sample as its two little-endian bytes.
fn sample_bytes(s: i16) -> (r: Vec<u8>)
    ensures
        r@ == spec_sample_bytes(s as int),
        r@.len() == 2,
{
    let m: i32 = s as i32;
    let u: i32 = if m < 0 {
        m + 0x10000
    } else {
        m
    };
    proof {
        if m < 0 {
            vstd::arithmetic::div_mod::lemma_fundamental_div_mod_converse(
                s + 0x10000,
                0x10000,
                0,
                s + 0x10000,
            );
        } else {
            vstd::arithmetic::div_mod::lemma_fundamental_div_mod_converse(
                s + 0x10000,
                0x10000,
                1,
                s as int,
            );
        }
    }
    let lo: u8 = (u % 0x100) as u8;
    let hi: u8 = (u / 0x100) as u8;
    let mut r: Vec<u8> = Vec::new();
    r.push(lo);
    r.push(hi);
    proof {
        assert(r@ =~= spec_sample_bytes(s as int));
    }
    r
}

/// Bytes in one finished frame: two per sample.
pub open spec fn spec_frame_bytes(fmt: AudioDataFmt) -> int {
    fmt.spec_frame_sample_count() * 2
}

/// Samples a seek that landed at `provided` instead of `requested` must
/// discard so output timecodes resume at `max(requested, provided)`.
pub open spec fn spec_ignored_samples(requested: int, provided: int, fmt: AudioDataFmt) -> int {
    if requested > provided {
        (requested - provided) * fmt.channel_count * fmt.sample_rate / 1000
    } else {
        0
    }
}

/// Mathematical state of a [`FinalPCMFilter`].
#[verifier::ext_equal]
pub ghost struct FilterView {
    /// Output format frames are packaged in.
    pub fmt: AudioDataFmt,
    /// Bytes accumulated towards the next frame.
    pub pending: Seq<u8>,
    /// The frame buffer finished frames are deposited into.
    pub out: BufView,
    /// Samples still to discard after a seek.
    pub ignored: int,
    /// Timecode, in ms, playback resumed at.
    pub base: int,
    /// Samples emitted since the base, counted in chunks.
    pub offset: int,
    /// Volume stamped on emitted frames.
    pub volume: u8,
}

impl FilterView {
    /// Structural soundness of the accumulation state.
    pub open spec fn wf(self) -> bool {
        &&& self.fmt.usable()
        &&& self.pending.len() % 2 == 0
        &&& self.pending.len() < spec_frame_bytes(self.fmt)
        &&& self.out.wf()
        &&& 0 <= self.ignored
        &&& 0 <= self.base
        &&& 0 <= self.offset
    }

    /// Timecode the next emitted frame is stamped with.
    pub open spec fn frame_timecode(self) -> int {
        self.base + self.offset * 1000 / self.fmt.sample_rate as int
    }

    /// The frame this state would emit with payload `data`.
    pub open spec fn emitted_frame(self, data: Seq<u8>) -> FrameView {
        FrameView {
            timecode: self.frame_timecode() as u64,
            volume: self.volume,
            data,
            format: self.fmt,
            terminator: false,
        }
    }

    /// State after feeding one scaled sample, with whether it was accepted.
    ///
    /// A sample is discarded while the post-seek ignore count is positive.
    /// Otherwise its two bytes join the accumulation window; a window that
    /// reaches the frame size is packaged and deposited, advancing the sample
    /// offset by one chunk. A deposit the buffer would refuse fails the step
    /// and leaves everything unchanged.
    pub open spec fn step(self, scaled: int) -> (FilterView, bool) {
        if self.ignored > 0 {
            (FilterView { ignored: self.ignored - 1, ..self }, true)
        } else {
            let data = self.pending + spec_sample_bytes(spec_clamp_sample(scaled));
            if data.len() < spec_frame_bytes(self.fmt) {
                (FilterView { pending: data, ..self }, true)
            } else if self.out.can_accept() {
                (
                    FilterView {
                        pending: Seq::empty(),
                        out: self.out.after_consume(self.emitted_frame(data)),
                        offset: self.offset + self.fmt.chunk_sample_count,
                        ..self
                    },
                    true,
                )
            } else {
                (self, false)
            }
        }
    }

    /// State after feeding each sample of `samples` in order, stopping at the
    /// first refused deposit.
    pub open spec fn process(self, samples: Seq<i32>) -> (FilterView, bool)
        decreases samples.len(),
    {
        if samples.len() == 0 {
            (self, true)
        } else {
            let stepped = self.step(samples[0] as int);
            if !stepped.1 {
                (stepped.0, false)
            } else {
                stepped.0.process(samples.drop_first())
            }
        }
    }

    /// State after a flush: a nonempty window is zero-padded to the frame
    /// size and deposited as a final short frame.
    pub open spec fn flushed(self) -> (FilterView, bool) {
        if self.pending.len() == 0 {
            (self, true)
        } else {
            let data = self.pending + Seq::new(
                (spec_frame_bytes(self.fmt) - self.pending.len()) as nat,
                |i: int| 0u8,
            );
            if self.out.can_accept() {
                (
                    FilterView {
                        pending: Seq::empty(),
                        out: self.out.after_consume(self.emitted_frame(data)),
                        offset: self.offset + self.fmt.chunk_sample_count,
                        ..self
                    },
                    true,
                )
            } else {
                (self, false)
            }
        }
    }
}

/// With the sample offset freshly reset, the next frame resumes exactly at
/// the timecode base: the first frame after a seek carries
/// `max(requested, provided)`.
pub proof fn lemma_first_frame_after_seek(v: FilterView)
    requires
        v.fmt.usable(),
        v.offset == 0,
    ensures
        v.frame_timecode() == v.base,
{
    vstd::arithmetic::div_mod::lemma_div_basics(v.fmt.sample_rate as int);
}

/// The terminal stage of every chain: re-chunks 16-bit PCM into fixed-size,
/// timestamped frames and deposits them into the track's frame buffer.
pub struct FinalPCMFilter {
    fmt: AudioDataFmt,
    buf: bytes::BytesMut,
    out: AbstractFrameBuf,
    volume: u8,
    ignored_frames: u64,
    timecode_base: u64,
    timecode_offset: u64,
}

impl View for FinalPCMFilter {
    type V = FilterView;

    closed spec fn view(&self) -> FilterView {
        FilterView {
            fmt: self.fmt,
            pending: bytes_mut_contents(self.buf),
            out: self.out@,
            ignored: self.ignored_frames as int,
            base: self.timecode_base as int,
            offset: self.timecode_offset as int,
            volume: self.volume,
        }
    }
}

impl FinalPCMFilter {
    /// Builds the terminal stage for `context`, taking ownership of the
    /// track's frame buffer and output format.
    pub fn new(context: ProcessingContext) -> (r: FinalPCMFilter)
        requires
            context.output_fmt.usable(),
            context.buf@.wf(),
        ensures
            r@.wf(),
            r@.fmt == context.output_fmt,
            r@.pending == Seq::<u8>::empty(),
            r@.out == context.buf@,
            r@.ignored == 0,
            r@.base == 0,
            r@.offset == 0,
            r@.volume == (if context.opts.volume > 100 {
                100
            } else {
                context.opts.volume as u8
            }),
    {
        let volume: u8 = if context.opts.volume > 100 {
            100
        } else {
            context.opts.volume as u8
        };
        proof {
            context.output_fmt.lemma_usable_frame_sample_count_pos();
        }
        let cap64: u64 = context.output_fmt.frame_sample_count() as u64 * 2;
        FinalPCMFilter {
            fmt: context.output_fmt,
            buf: bytes_with_capacity(cap64 as usize),
            out: context.buf,
            volume,
            ignored_frames: 0,
            timecode_base: 0,
            timecode_offset: 0,
        }
    }

    /// Feeds one scaled sample through the terminal stage.
    fn process_sample(&mut self, scaled: i32) -> (r: Result<(), PlayerFrameError>)
        requires
            old(self)@.wf(),
            old(self)@.base <= MAX_TIMECODE_MS,
            old(self)@.offset + old(self)@.fmt.chunk_sample_count <= MAX_SAMPLE_OFFSET,
        ensures
            final(self)@.wf(),
            final(self)@ == old(self)@.step(scaled as int).0,
            r is Ok <==> old(self)@.step(scaled as int).1,
            r matches Err(e) ==> e.is_interrupted(),
    {
        if self.ignored_frames > 0 {
            self.ignored_frames = self.ignored_frames - 1;
            proof {
                assert(self@ =~= old(self)@.step(scaled as int).0);
            }
            return Ok(());
        }
        proof {
            self.fmt.lemma_usable_frame_sample_count_pos();
        }
        let frame_len: u64 = self.fmt.frame_sample_count() as u64 * 2;
        let pending_len: u64 = bytes_len(&self.buf) as u64;
        let completes = pending_len + 2 == frame_len;
        if completes && !self.out.can_accept() {
            proof {
                assert(self@ =~= old(self)@.step(scaled as int).0);
            }
            return Err(
                PlayerFrameError::Interrupted("the frame buffer refused a finished frame".to_owned()),
            );
        }
        let pair = sample_bytes(decode_sample(scaled));
        bytes_extend(&mut self.buf, pair.as_slice());
        if completes {
            let data = bytes_to_vec(&self.buf);
            bytes_clear(&mut self.buf);
            proof {
                vstd::arithmetic::div_mod::lemma_div_basics_5(
                    self.timecode_offset * 1000,
                    self.fmt.sample_rate as int,
                );
            }
            let timecode = self.timecode_base + self.timecode_offset * 1000 / (
            self.fmt.sample_rate as u64);
            let frame = Frame {
                timecode,
                volume: self.volume,
                data,
                format: self.fmt,
                terminator: false,
            };
            let deposited = self.out.consume(frame);
            proof {
                assert(deposited is Ok);
            }
            self.timecode_offset = self.timecode_offset + self.fmt.chunk_sample_count as u64;
            proof {
                assert(self@ =~= old(self)@.step(scaled as int).0);
            }
        } else {
            proof {
                assert(self@ =~= old(self)@.step(scaled as int).0);
            }
        }
        Ok(())
    }

    /// Pushes `input[offset..offset + length]` through the terminal stage,
    /// stopping at the first refused deposit.
    pub fn process_at(&mut self, input: &[i32], offset: usize, length: usize) -> (r: Result<
        (),
        PlayerFrameError,
    >)
        requires
            old(self)@.wf(),
            offset + length <= input@.len(),
            old(self)@.base <= MAX_TIMECODE_MS,
            old(self)@.offset + length * old(self)@.fmt.chunk_sample_count
                + old(self)@.fmt.chunk_sample_count <= MAX_SAMPLE_OFFSET,
        ensures
            final(self)@.wf(),
            final(self)@ == old(self)@.process(
                input@.subrange(offset as int, offset + length),
            ).0,
            r is Ok <==> old(self)@.process(input@.subrange(offset as int, offset + length)).1,
            r matches Err(e) ==> e.is_interrupted(),
    {
        let ghost pre = self@;
        let ghost s = input@.subrange(offset as int, offset + length);
        let ghost chunk = pre.fmt.chunk_sample_count as int;
        let n = input.len();
        proof {
            assert(s.skip(0) =~= s);
        }
        let mut j: usize = 0;
        while j < length
            invariant
                j <= length,
                pre == old(self)@,
                n == input@.len(),
                offset + length <= n,
                self@.wf(),
                self@.fmt == pre.fmt,
                self@.base == pre.base,
                self@.base <= MAX_TIMECODE_MS,
                self@.offset + (length - j) * chunk + chunk <= MAX_SAMPLE_OFFSET,
                s == input@.subrange(offset as int, offset + length),
                chunk == pre.fmt.chunk_sample_count,
                pre.process(s) == self@.process(s.skip(j as int)),
            decreases length - j,
        {
            let ghost cur = self@;
            let sample = input[offset + j];
            proof {
                assert(s.skip(j as int)[0] == s[j as int]);
                assert(s[j as int] == input@[offset + j]);
                assert((length - j) * chunk == (length - (j + 1)) * chunk + chunk) by (nonlinear_arith);
            }
            let stepped = self.process_sample(sample);
            proof {
                assert(s.skip(j as int).drop_first() =~= s.skip(j as int + 1));
            }
            if stepped.is_err() {
                proof {
                    assert(pre.process(s) == (self@, false));
                }
                return stepped;
            }
            j = j + 1;
        }
        proof {
            assert(s.skip(length as int) =~= Seq::<i32>::empty());
            assert(pre.process(s) == (self@, true));
        }
        Ok(())
    }

    /// Pushes all of `input` through the terminal stage, stopping at the
    /// first refused deposit.
    pub fn process_all(&mut self, input: &[i32]) -> (r: Result<(), PlayerFrameError>)
        requires
            old(self)@.wf(),
            old(self)@.base <= MAX_TIMECODE_MS,
            old(self)@.offset + input@.len() * old(self)@.fmt.chunk_sample_count
                + old(self)@.fmt.chunk_sample_count <= MAX_SAMPLE_OFFSET,
        ensures
            final(self)@.wf(),
            final(self)@ == old(self)@.process(input@).0,
            r is Ok <==> old(self)@.process(input@).1,
            r matches Err(e) ==> e.is_interrupted(),
    {
        let len = input.len();
        proof {
            assert(input@.subrange(0, len as int) =~= input@);
        }
        self.process_at(input, 0, len)
    }

    /// Notifies the terminal stage of a discontinuous jump: the accumulation
    /// window is dropped, the timecode base moves to `max(requested_time,
    /// provided_time)`, the sample offset restarts, and — when the seek
    /// landed earlier than requested — enough samples to cover the gap are
    /// marked to be discarded.
    pub fn seek_performed(&mut self, requested_time: u64, provided_time: u64)
        requires
            old(self)@.wf(),
            requested_time <= MAX_TIMECODE_MS,
            provided_time <= MAX_TIMECODE_MS,
            requested_time > provided_time ==> (requested_time - provided_time)
                * old(self)@.fmt.channel_count * old(self)@.fmt.sample_rate <= u64::MAX,
        ensures
            final(self)@.wf(),
            final(self)@.pending == Seq::<u8>::empty(),
            final(self)@.ignored == spec_ignored_samples(
                requested_time as int,
                provided_time as int,
                old(self)@.fmt,
            ),
            final(self)@.base == (if requested_time >= provided_time {
                requested_time as int
            } else {
                provided_time as int
            }),
            final(self)@.offset == 0,
            final(self)@.fmt == old(self)@.fmt,
            final(self)@.out == old(self)@.out,
            final(self)@.volume == old(self)@.volume,
    {
        bytes_clear(&mut self.buf);
        if requested_time > provided_time {
            let diff = requested_time - provided_time;
            proof {
                let d = diff as int;
                let ch = self.fmt.channel_count as int;
                let rate = self.fmt.sample_rate as int;
                assert(d * ch <= d * ch * rate) by (nonlinear_arith)
                    requires
                        rate >= 1,
                        d >= 0,
                        ch >= 0,
                ;
                vstd::arithmetic::div_mod::lemma_div_basics_5(d * ch * rate, 1000);
            }
            self.ignored_frames = diff * self.fmt.channel_count as u64 * self.fmt.sample_rate
                as u64 / 1000;
        } else {
            self.ignored_frames = 0;
        }
        self.timecode_base = if requested_time > provided_time {
            requested_time
        } else {
            provided_time
        };
        self.timecode_offset = 0;
        proof {
            self.fmt.lemma_usable_frame_sample_count_pos();
        }
    }

    /// Zero-pads and deposits a partially filled accumulation window as a
    /// final short frame; used at end of track.
    pub fn flush(&mut self) -> (r: Result<(), PlayerFrameError>)
        requires
            old(self)@.wf(),
            old(self)@.base <= MAX_TIMECODE_MS,
            old(self)@.offset + old(self)@.fmt.chunk_sample_count <= MAX_SAMPLE_OFFSET,
        ensures
            final(self)@.wf(),
            final(self)@ == old(self)@.flushed().0,
            r is Ok <==> old(self)@.flushed().1,
            r matches Err(e) ==> e.is_interrupted(),
    {
        let pending_len: u64 = bytes_len(&self.buf) as u64;
        if pending_len == 0 {
            return Ok(());
        }
        if !self.out.can_accept() {
            return Err(
                PlayerFrameError::Interrupted("the frame buffer refused the final frame".to_owned()),
            );
        }
        proof {
            self.fmt.lemma_usable_frame_sample_count_pos();
        }
        let frame_len: usize = self.fmt.frame_sample_count() as usize * 2;
        let pad: usize = frame_len - pending_len as usize;
        let zeros: Vec<u8> = vec![0u8; pad];
        proof {
            assert forall|i: int| 0 <= i < pad as int implies zeros@[i] == 0u8 by {
                assert(cloned(0u8, zeros@[i]));
            }
            assert(zeros@ =~= Seq::new(pad as nat, |i: int| 0u8));
        }
        bytes_extend(&mut self.buf, zeros.as_slice());
        let data = bytes_to_vec(&self.buf);
        bytes_clear(&mut self.buf);
        proof {
            vstd::arithmetic::div_mod::lemma_div_basics_5(
                self.timecode_offset * 1000,
                self.fmt.sample_rate as int,
            );
        }
        let timecode = self.timecode_base + self.timecode_offset * 1000 / (
        self.fmt.sample_rate as u64);
        let frame = Frame { timecode, volume: self.volume, data, format: self.fmt, terminator: false };
        let deposited = self.out.consume(frame);
        proof {
            assert(deposited is Ok);
        }
        self.timecode_offset = self.timecode_offset + self.fmt.chunk_sample_count as u64;
        proof {
            assert(self@ =~= old(self)@.flushed().0);
        }
        Ok(())
    }

    /// Releases the stage's accumulation buffer; idempotent.
    pub fn close(&mut self)
        ensures
            final(self)@ == (FilterView { pending: Seq::<u8>::empty(), ..old(self)@ }),
    {
        bytes_clear(&mut self.buf);
        proof {
            assert(self@ =~= (FilterView { pending: Seq::<u8>::empty(), ..old(self)@ }));
        }
    }

    /// The frame buffer this stage deposits into.
    pub fn audio_buffer(&self) -> (r: &AbstractFrameBuf)
        ensures
            r@ == self@.out,
    {
        &self.out
    }

    /// Mutable access to the frame buffer this stage deposits into; the
    /// consumer side of the track pulls frames through this.
    pub fn buffer_mut(&mut self) -> (r: &mut AbstractFrameBuf)
        ensures
            (*r)@ == old(self)@.out,
            final(self)@ == (FilterView { out: (*final(r))@, ..old(self)@ }),
    {
        &mut self.out
    }
}

/// Declares `bytes::BytesMut`, the byte buffer the terminal stage
/// accumulates samples in.
#[verifier::external_type_specification]
#[verifier::external_body]
pub struct ExBytesMut(bytes::BytesMut);

/// The bytes a `bytes::BytesMut` currently holds, oldest first.
pub uninterp spec fn bytes_mut_contents(b: bytes::BytesMut) -> Seq<u8>;

/// Relies on bytes::BytesMut::with_capacity: the new buffer holds nothing.
#[verifier::external_body]
fn bytes_with_capacity(capacity: usize) -> (r: bytes::BytesMut)
    ensures
        bytes_mut_contents(r) == Seq::<u8>::empty(),
{
    bytes::BytesMut::with_capacity(capacity)
}

/// Relies on bytes::BytesMut::len: the number of bytes held.
#[verifier::external_body]
fn bytes_len(b: &bytes::BytesMut) -> (r: usize)
    ensures
        r == bytes_mut_contents(*b).len(),
{
    b.len()
}

/// Relies on bytes::BytesMut::extend_from_slice: appends the slice's bytes.
#[verifier::external_body]
fn bytes_extend(b: &mut bytes::BytesMut, s: &[u8])
    ensures
        bytes_mut_contents(*final(b)) == bytes_mut_contents(*old(b)) + s@,
{
    b.extend_from_slice(s)
}

/// Relies on bytes::BytesMut::clear: empties the buffer.
#[verifier::external_body]
fn bytes_clear(b: &mut bytes::BytesMut)
    ensures
        bytes_mut_contents(*final(b)) == Seq::<u8>::empty(),
{
    b.clear()
}

/// Relies on BytesMut's Deref to `[u8]`: copies out the bytes held.
#[verifier::external_body]
fn bytes_to_vec(b: &bytes::BytesMut) -> (r: Vec<u8>)
    ensures
        r@ == bytes_mut_contents(*b),
{
    b.to_vec()
}

} // verus!
