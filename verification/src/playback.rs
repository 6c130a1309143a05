//! Frames and the bounded, timecode-aware frame buffer.
//!
//! [`AbstractFrameBuf`] is the handoff point between the filter chain
//! (producer) and the delivery layer (consumer): a bounded queue of finished
//! output frames plus an explicit termination protocol. Its behaviour is a
//! deterministic state machine over [`BufView`]; every operation's contract
//! is stated as a transition of that view.
//!
//! Blocking policy: this core is driven one call at a time, so a wait that
//! could only be satisfied by a concurrent peer cannot be parked. A `consume`
//! on a full buffer and a `provide_with` on an empty, non-terminated buffer
//! therefore fail immediately — with `Interrupted` where an external stop
//! signal is set (and always for a refused insert), with `Timeout` where a
//! deadline would have elapsed — instead of suspending.

use crate::err::PlayerFrameError;
use crate::fmt::AudioDataFmt;
use crate::player::{AudioConfig, AudioPlayerOpts};
use crate::track::{Marker, TrackState};
use vstd::prelude::*;

verus! {

/// One fixed-duration, timestamped chunk of output-ready PCM audio.
///
/// A frame with `terminator == true` carries no playable data and signals
/// end-of-stream to the consumer. Frames are immutable once buffered.
#[derive(Debug)]
pub struct Frame {
    /// Timecode of the frame's first sample, in ms.
    pub timecode: u64,
    /// Playback volume the frame was produced at, 0 to 100.
    pub volume: u8,
    /// Raw frame payload.
    pub data: Vec<u8>,
    /// Format the payload is encoded in.
    pub format: AudioDataFmt,
    /// End-of-stream signal; a terminator carries no playable data.
    pub terminator: bool,
}

/// Mathematical value of a [`Frame`].
#[verifier::ext_equal]
pub ghost struct FrameView {
    pub timecode: u64,
    pub volume: u8,
    pub data: Seq<u8>,
    pub format: AudioDataFmt,
    pub terminator: bool,
}

impl View for Frame {
    type V = FrameView;

    open spec fn view(&self) -> FrameView {
        FrameView {
            timecode: self.timecode,
            volume: self.volume,
            data: self.data@,
            format: self.format,
            terminator: self.terminator,
        }
    }
}

/// The frame a drained, terminated buffer hands out as its terminal signal.
pub open spec fn spec_terminator(fmt: AudioDataFmt) -> FrameView {
    FrameView { timecode: 0, volume: 0, data: Seq::empty(), format: fmt, terminator: true }
}

/// Builds the terminal-signal frame for `fmt`.
pub fn terminator_frame(fmt: AudioDataFmt) -> (r: Frame)
    ensures
        r@ == spec_terminator(fmt),
{
    let r = Frame { timecode: 0, volume: 0, data: Vec::new(), format: fmt, terminator: true };
    proof {
        assert(r@ =~= spec_terminator(fmt));
    }
    r
}

/// The values of a sequence of frames.
pub open spec fn frames_view(s: Seq<Frame>) -> Seq<FrameView> {
    s.map_values(|f: Frame| f@)
}

/// Mathematical state of an [`AbstractFrameBuf`].
#[verifier::ext_equal]
pub ghost struct BufView {
    pub fmt: AudioDataFmt,
    /// Pending frames, oldest first.
    pub frames: Seq<FrameView>,
    /// Bound on `frames.len()`, in frames.
    pub capacity: int,
    /// Whether any frame was ever accepted.
    pub received: bool,
    /// Once set, no further frame is accepted and consumer waits return the
    /// terminal signal.
    pub terminated: bool,
    /// Terminate as soon as the buffer is observed empty.
    pub term_on_empty: bool,
    /// Discard everything buffered when the next frame arrives (hot-swap).
    pub clear_pending: bool,
    /// External stop signal: pending waits report `Interrupted`.
    pub stopping: bool,
    /// Timecode of the most recently accepted frame.
    pub last_timecode: Option<u64>,
}

impl BufView {
    /// Structural soundness: a positive bound that the queue respects.
    pub open spec fn wf(self) -> bool {
        &&& 1 <= self.capacity <= 255
        &&& self.frames.len() <= self.capacity
    }

    /// Whether an insert is accepted in this state: the termination protocol
    /// has not begun, and there is room (a pending clear always makes room).
    pub open spec fn can_accept(self) -> bool {
        &&& !self.terminated
        &&& !self.term_on_empty
        &&& (self.clear_pending || self.frames.len() < self.capacity)
    }

    /// State after `consume(f)`: a refused insert changes nothing; an accepted
    /// one first discards the backlog if a clear is pending, then appends.
    pub open spec fn after_consume(self, f: FrameView) -> BufView {
        if !self.can_accept() {
            self
        } else {
            BufView {
                frames: if self.clear_pending {
                    seq![f]
                } else {
                    self.frames.push(f)
                },
                clear_pending: false,
                received: true,
                last_timecode: Some(f.timecode),
                ..self
            }
        }
    }

    /// What a take attempt returns in this state: the oldest frame, the
    /// terminal signal once termination has begun, or nothing.
    pub open spec fn provide_frame(self) -> Option<FrameView> {
        if self.frames.len() > 0 {
            Some(self.frames[0])
        } else if self.terminated || self.term_on_empty {
            Some(spec_terminator(self.fmt))
        } else {
            None
        }
    }

    /// State after a take attempt: the oldest frame leaves, and draining the
    /// last frame under `term_on_empty` completes termination.
    pub open spec fn after_provide(self) -> BufView {
        if self.frames.len() > 0 {
            BufView {
                frames: self.frames.drop_first(),
                terminated: self.terminated || (self.term_on_empty && self.frames.len() == 1),
                ..self
            }
        } else if self.terminated || self.term_on_empty {
            BufView { terminated: true, ..self }
        } else {
            self
        }
    }

    /// State after `terminate_on_empty()`: an already-empty buffer terminates
    /// at once.
    pub open spec fn after_terminate_on_empty(self) -> BufView {
        BufView {
            term_on_empty: true,
            terminated: self.terminated || self.frames.len() == 0,
            ..self
        }
    }

    /// State after `wait_for_termination()`: observing an empty buffer under
    /// `term_on_empty` completes termination.
    pub open spec fn after_wait(self) -> BufView {
        if self.term_on_empty && self.frames.len() == 0 {
            BufView { terminated: true, ..self }
        } else {
            self
        }
    }

    /// Whether `wait_for_termination()` succeeds in this state.
    pub open spec fn wait_succeeds(self) -> bool {
        self.terminated || (self.term_on_empty && self.frames.len() == 0)
    }

    /// State after `clear()`: the backlog is discarded, nothing else moves.
    pub open spec fn after_clear(self) -> BufView {
        BufView { frames: Seq::empty(), ..self }
    }
}

/// Bounded, timecode-aware queue of finished output frames: the boundary
/// between the filter chain and the delivery layer, with single-reader,
/// single-writer handoff and an explicit termination protocol.
pub struct AbstractFrameBuf {
    fmt: AudioDataFmt,
    frames: Vec<Frame>,
    capacity: u8,
    received: bool,
    terminated: bool,
    term_on_empty: bool,
    clear_pending: bool,
    stopping: bool,
    last_timecode: Option<u64>,
}

impl View for AbstractFrameBuf {
    type V = BufView;

    closed spec fn view(&self) -> BufView {
        BufView {
            fmt: self.fmt,
            frames: frames_view(self.frames@),
            capacity: self.capacity as int,
            received: self.received,
            terminated: self.terminated,
            term_on_empty: self.term_on_empty,
            clear_pending: self.clear_pending,
            stopping: self.stopping,
            last_timecode: self.last_timecode,
        }
    }
}

impl AbstractFrameBuf {
    /// Builds a buffer sized for `buf_duration` ms of audio in format `fmt`:
    /// `capacity = ceil(buf_duration / frame_duration_ms)` frames, so memory
    /// scales with the audio format, not a fixed byte count.
    pub fn new(buf_duration: u32, fmt: AudioDataFmt, stopping: bool) -> (r: AbstractFrameBuf)
        requires
            fmt.usable(),
            fmt.spec_frame_duration() >= 1,
            buf_duration >= 1,
            (buf_duration + fmt.spec_frame_duration() - 1) / fmt.spec_frame_duration() <= 255,
        ensures
            r@.wf(),
            r@.fmt == fmt,
            r@.frames == Seq::<FrameView>::empty(),
            r@.capacity == (buf_duration + fmt.spec_frame_duration() - 1) / fmt.spec_frame_duration(),
            !r@.received,
            !r@.terminated,
            !r@.term_on_empty,
            !r@.clear_pending,
            r@.stopping == stopping,
            r@.last_timecode is None,
    {
        let fd = fmt.frame_duration();
        let cap = (buf_duration as u64 + fd - 1) / fd;
        proof {
            vstd::arithmetic::div_mod::lemma_div_non_zero(
                buf_duration + fd - 1,
                fd as int,
            );
        }
        let r = AbstractFrameBuf {
            fmt,
            frames: Vec::new(),
            capacity: cap as u8,
            received: false,
            terminated: false,
            term_on_empty: false,
            clear_pending: false,
            stopping,
            last_timecode: None,
        };
        proof {
            assert(r@.frames =~= Seq::<FrameView>::empty());
        }
        r
    }

    /// Inserts a finished frame.
    ///
    /// If a clear is pending (hot-swap handoff), the stale backlog is
    /// discarded first, so no consumer ever observes superseded audio.
    /// Refused — with nothing changed — once the termination protocol has
    /// begun, or when the buffer is at capacity (the backpressure wait cannot
    /// be satisfied here, so it reports `Interrupted` at once).
    pub fn consume(&mut self, frame: Frame) -> (r: Result<(), PlayerFrameError>)
        requires
            old(self)@.wf(),
        ensures
            final(self)@.wf(),
            final(self)@ == old(self)@.after_consume(frame@),
            r is Ok <==> old(self)@.can_accept(),
            r matches Err(e) ==> e.is_interrupted(),
    {
        if self.terminated || self.term_on_empty {
            return Err(PlayerFrameError::Interrupted("the frame buffer is terminated".to_owned()));
        }
        if self.clear_pending {
            self.frames.clear();
            self.clear_pending = false;
        } else if self.frames.len() >= self.capacity as usize {
            return Err(PlayerFrameError::Interrupted("the frame buffer is full".to_owned()));
        }
        self.received = true;
        self.last_timecode = Some(frame.timecode);
        let ghost pre_push = self.frames@;
        self.frames.push(frame);
        proof {
            assert(frames_view(self.frames@) =~= frames_view(pre_push).push(frame@));
            assert(self@ =~= old(self)@.after_consume(frame@));
        }
        Ok(())
    }

    /// Non-blocking take of the next frame: the oldest buffered frame, the
    /// terminal signal once termination has begun, or nothing when empty and
    /// not terminated.
    pub fn provide(&mut self) -> (r: Option<Frame>)
        requires
            old(self)@.wf(),
        ensures
            final(self)@.wf(),
            final(self)@ == old(self)@.after_provide(),
            r matches Some(f) ==> old(self)@.provide_frame() == Some(f@),
            r is None <==> old(self)@.provide_frame() is None,
    {
        if self.frames.len() > 0 {
            let ghost pre = self.frames@;
            let f = self.frames.remove(0);
            if self.frames.len() == 0 && self.term_on_empty {
                self.terminated = true;
            }
            proof {
                assert(frames_view(pre.remove(0)) =~= frames_view(pre).drop_first());
                assert(self@ =~= old(self)@.after_provide());
            }
            Some(f)
        } else if self.terminated || self.term_on_empty {
            self.terminated = true;
            let fmt = self.fmt;
            proof {
                assert(self@ =~= old(self)@.after_provide());
            }
            Some(terminator_frame(fmt))
        } else {
            None
        }
    }

    /// Take of the next frame with a deadline. Returns the oldest frame, or
    /// the terminal signal promptly once termination has begun. When empty
    /// with no termination in sight the wait cannot be satisfied here:
    /// `Interrupted` under an external stop signal, otherwise `Timeout`
    /// (whatever the deadline, since no producer can run during the wait).
    pub fn provide_with(&mut self, timeout: Option<u64>) -> (r: Result<
        Frame,
        PlayerFrameError,
    >)
        requires
            old(self)@.wf(),
        ensures
            final(self)@.wf(),
            final(self)@ == old(self)@.after_provide(),
            r is Ok <==> old(self)@.provide_frame() is Some,
            r matches Ok(f) ==> old(self)@.provide_frame() == Some(f@),
            r matches Err(e) ==> (e.is_interrupted() <==> old(self)@.stopping),
    {
        let _ = timeout;
        match self.provide() {
            Some(f) => Ok(f),
            None => {
                if self.stopping {
                    Err(PlayerFrameError::Interrupted("the wait for a frame was stopped".to_owned()))
                } else {
                    Err(PlayerFrameError::Timeout("no frame arrived before the deadline".to_owned()))
                }
            },
        }
    }

    /// Fills `frame` with the next available frame instead of returning it.
    pub fn provide_mut(&mut self, frame: &mut Frame) -> (r: bool)
        requires
            old(self)@.wf(),
        ensures
            final(self)@.wf(),
            final(self)@ == old(self)@.after_provide(),
            r <==> old(self)@.provide_frame() is Some,
            r ==> old(self)@.provide_frame() == Some(final(frame)@),
            !r ==> final(frame)@ == old(frame)@,
    {
        match self.provide() {
            Some(f) => {
                *frame = f;
                true
            },
            None => false,
        }
    }

    /// Fills `frame` under a deadline; errors as [`Self::provide_with`] does.
    pub fn provide_mut_with(&mut self, frame: &mut Frame, timeout: Option<u64>) -> (r: Result<
        bool,
        PlayerFrameError,
    >)
        requires
            old(self)@.wf(),
        ensures
            final(self)@.wf(),
            final(self)@ == old(self)@.after_provide(),
            r is Ok <==> old(self)@.provide_frame() is Some,
            r matches Ok(b) ==> b && old(self)@.provide_frame() == Some(final(frame)@),
            r is Err ==> final(frame)@ == old(frame)@,
            r matches Err(e) ==> (e.is_interrupted() <==> old(self)@.stopping),
    {
        match self.provide_with(timeout) {
            Ok(f) => {
                *frame = f;
                Ok(true)
            },
            Err(e) => Err(e),
        }
    }

    /// Whether an insert would currently be accepted: the termination
    /// protocol has not begun and there is room (or a pending clear).
    pub fn can_accept(&self) -> (r: bool)
        ensures
            r == self@.can_accept(),
    {
        !self.terminated && !self.term_on_empty && (self.clear_pending || self.frames.len()
            < self.capacity as usize)
    }

    /// Slots still free, informational only.
    pub fn remaining_capacity(&self) -> (r: u8)
        requires
            self@.wf(),
        ensures
            r as int == self@.capacity - self@.frames.len(),
    {
        self.capacity - self.frames.len() as u8
    }

    /// Total slots, informational only.
    pub fn full_capacity(&self) -> (r: u8)
        ensures
            r as int == self@.capacity,
    {
        self.capacity
    }

    /// Blocks until the buffer has terminated. Succeeds once termination has
    /// completed — in particular right after the backlog drained under
    /// `terminate_on_empty` — and otherwise reports the wait as interrupted,
    /// since no producer can complete it here.
    pub fn wait_for_termination(&mut self) -> (r: Result<(), PlayerFrameError>)
        ensures
            final(self)@ == old(self)@.after_wait(),
            r is Ok <==> old(self)@.wait_succeeds(),
            r matches Err(e) ==> e.is_interrupted(),
    {
        if self.terminated {
            Ok(())
        } else if self.term_on_empty && self.frames.len() == 0 {
            self.terminated = true;
            Ok(())
        } else {
            Err(PlayerFrameError::Interrupted("the wait for termination was stopped".to_owned()))
        }
    }

    /// Marks that the buffer terminates as soon as it drains; an already
    /// empty buffer terminates immediately. After this, no further frame is
    /// accepted and consumer waits return the terminal signal promptly.
    pub fn terminate_on_empty(&mut self)
        ensures
            final(self)@ == old(self)@.after_terminate_on_empty(),
    {
        self.term_on_empty = true;
        if self.frames.len() == 0 {
            self.terminated = true;
        }
    }

    /// Requests that the next insert first discard everything buffered; used
    /// when a hot-swapped chain must supersede stale audio.
    pub fn clear_on_insert(&mut self)
        ensures
            final(self)@ == (BufView { clear_pending: true, ..old(self)@ }),
    {
        self.clear_pending = true;
    }

    /// Whether the next insert will first discard the backlog.
    pub fn will_clear_on_insert(&self) -> (r: bool)
        ensures
            r == self@.clear_pending,
    {
        self.clear_pending
    }

    /// Discards all buffered frames immediately (seek or stop) without
    /// altering the termination state.
    pub fn clear(&mut self)
        ensures
            final(self)@ == old(self)@.after_clear(),
    {
        self.frames.clear();
        proof {
            assert(self@ =~= old(self)@.after_clear());
        }
    }

    /// Whether the external stop signal is set, so pending waits report
    /// `Interrupted`.
    pub fn is_stopping(&self) -> (r: bool)
        ensures
            r == self@.stopping,
    {
        self.stopping
    }

    /// Whether any frame was ever accepted.
    pub fn has_received(&self) -> (r: bool)
        ensures
            r == self@.received,
    {
        self.received
    }

    /// Timecode of the most recently accepted frame, if any; lets the track
    /// executor report a position before the consumer pulled anything.
    pub fn last_input_timecode(&self) -> (r: Option<u64>)
        ensures
            r == self@.last_timecode,
    {
        self.last_timecode
    }
}

/// State of `buf` after inserting each frame of `fs` in order.
pub open spec fn spec_consume_all(v: BufView, fs: Seq<FrameView>) -> BufView
    decreases fs.len(),
{
    if fs.len() == 0 {
        v
    } else {
        spec_consume_all(v.after_consume(fs[0]), fs.drop_first())
    }
}

/// Frames come back in insertion order: any sequence of inserts that stays
/// within capacity (with no termination and no pending clear) appends exactly
/// those frames, unchanged, behind the existing backlog.
pub proof fn lemma_consume_preserves_order(v: BufView, fs: Seq<FrameView>)
    requires
        v.wf(),
        !v.terminated,
        !v.term_on_empty,
        !v.clear_pending,
        v.frames.len() + fs.len() <= v.capacity,
    ensures
        spec_consume_all(v, fs).frames == v.frames + fs,
        spec_consume_all(v, fs).wf(),
        !spec_consume_all(v, fs).terminated,
        !spec_consume_all(v, fs).term_on_empty,
        !spec_consume_all(v, fs).clear_pending,
    decreases fs.len(),
{
    if fs.len() == 0 {
        assert(v.frames + fs =~= v.frames);
    } else {
        let v1 = v.after_consume(fs[0]);
        assert(v1.frames =~= v.frames.push(fs[0]));
        lemma_consume_preserves_order(v1, fs.drop_first());
        assert(v.frames.push(fs[0]) + fs.drop_first() =~= v.frames + fs);
    }
}

/// The frames handed out by `n` successive takes, oldest first.
pub open spec fn spec_drain(v: BufView, n: nat) -> Seq<FrameView>
    decreases n,
{
    if n == 0 {
        Seq::empty()
    } else {
        match v.provide_frame() {
            Some(f) => seq![f] + spec_drain(v.after_provide(), (n - 1) as nat),
            None => Seq::empty(),
        }
    }
}

/// Draining a buffer's whole backlog yields exactly the buffered frames, in
/// order, each with its timecode and data unchanged.
pub proof fn lemma_drain_in_order(v: BufView)
    ensures
        spec_drain(v, v.frames.len()) == v.frames,
    decreases v.frames.len(),
{
    if v.frames.len() > 0 {
        let rest = v.after_provide();
        assert(rest.frames =~= v.frames.drop_first());
        lemma_drain_in_order(rest);
        assert(seq![v.frames[0]] + v.frames.drop_first() =~= v.frames);
    }
}

/// The round trip behind frame delivery: inserting any sequence of frames
/// that stays within capacity and then draining the buffer yields the prior
/// backlog followed by exactly those frames, unchanged and in order.
pub proof fn lemma_fifo_round_trip(v: BufView, fs: Seq<FrameView>)
    requires
        v.wf(),
        !v.terminated,
        !v.term_on_empty,
        !v.clear_pending,
        v.frames.len() + fs.len() <= v.capacity,
    ensures
        spec_drain(spec_consume_all(v, fs), (v.frames.len() + fs.len()) as nat) == v.frames + fs,
{
    lemma_consume_preserves_order(v, fs);
    lemma_drain_in_order(spec_consume_all(v, fs));
}

/// Once `terminate_on_empty` was requested and the backlog has drained, the
/// buffer has terminated: the next take returns the terminal signal rather
/// than blocking, and the wait for termination succeeds.
pub proof fn lemma_termination_after_drain(v: BufView)
    requires
        v.term_on_empty,
        v.frames.len() == 0,
    ensures
        v.terminated || v.after_wait().terminated,
        v.provide_frame() == Some(spec_terminator(v.fmt)),
        v.wait_succeeds(),
        !v.can_accept(),
{
}

/// A clear followed by one insert hands out exactly the inserted frame: no
/// stale frame survives the clear, and the buffer is empty afterwards.
pub proof fn lemma_clear_then_consume_roundtrip(v: BufView, f: FrameView)
    requires
        v.wf(),
        !v.terminated,
        !v.term_on_empty,
        !v.clear_pending,
    ensures
        ({
            let cleared = v.after_clear();
            let filled = cleared.after_consume(f);
            &&& cleared.can_accept()
            &&& filled.provide_frame() == Some(f)
            &&& filled.after_provide().frames == Seq::<FrameView>::empty()
        }),
{
    let cleared = v.after_clear();
    let filled = cleared.after_consume(f);
    assert(filled.frames =~= Seq::<FrameView>::empty().push(f));
    assert(filled.after_provide().frames =~= Seq::<FrameView>::empty());
}

/// Everything the producer side of one track needs: configuration, the frame
/// buffer the chain deposits into, player options and the output format.
pub struct ProcessingContext {
    pub config: AudioConfig,
    pub buf: AbstractFrameBuf,
    pub opts: AudioPlayerOpts,
    pub hotswap: bool,
    pub output_fmt: AudioDataFmt,
}

impl ProcessingContext {
    pub fn new(
        config: AudioConfig,
        buf: AbstractFrameBuf,
        opts: AudioPlayerOpts,
        output_fmt: AudioDataFmt,
    ) -> (r: Self)
        ensures
            r.config == config,
            r.buf@ == buf@,
            r.opts == opts,
            r.hotswap == config.hotswap,
            r.output_fmt == output_fmt,
    {
        let hotswap = config.hotswap;
        ProcessingContext { config, buf, opts, hotswap, output_fmt }
    }
}

/// Consumer-side handle of a frame source.
pub trait FrameProvider {
    /// Non-blocking take of the next frame.
    fn provide(&mut self) -> Option<Frame>;

    /// Take of the next frame with a deadline in ms (indefinite when absent).
    fn provide_with(&mut self, timeout: Option<u64>) -> Result<Frame, PlayerFrameError>;

    /// Fills `frame` with the next frame; true when one was available.
    fn provide_mut(&mut self, frame: &mut Frame) -> bool;

    /// Fills `frame` under a deadline.
    fn provide_mut_with(&mut self, frame: &mut Frame, timeout: Option<u64>) -> Result<
        bool,
        PlayerFrameError,
    >;
}

/// Rewrites frames in flight (volume or format adjustments).
pub trait FrameRebuilder {
    fn rebuild(&self, frame: Frame) -> Frame;
}

/// Producer-side handle of a frame sink.
pub trait FrameConsumer {
    /// Inserts a finished frame.
    fn consume(&mut self, frame: Frame) -> Result<(), PlayerFrameError>;

    /// Passes every pending frame through `rebuilder`.
    fn rebuild<R: FrameRebuilder>(&mut self, rebuilder: &R);
}

/// Full contract of a frame buffer: handoff plus termination protocol.
pub trait FrameBuf: FrameProvider + FrameConsumer {
    /// Slots still free, informational only.
    fn remaining_capacity(&self) -> u8;

    /// Total slots, informational only.
    fn full_capacity(&self) -> u8;

    /// Blocks until the buffer has terminated.
    fn wait_for_termination(&mut self) -> Result<(), PlayerFrameError>;

    /// Terminate as soon as the buffer drains.
    fn terminate_on_empty(&mut self);

    /// Discard the backlog on the next insert (hot-swap handoff).
    fn clear_on_insert(&mut self);

    /// Whether the next insert will discard the backlog.
    fn will_clear_on_insert(&self) -> bool;

    /// Discards all buffered frames immediately.
    fn clear(&mut self);

    /// Whether any frame was ever accepted.
    fn has_received(&self) -> bool;

    /// Timecode of the most recently accepted frame.
    fn last_input_timecode(&self) -> Option<u64>;
}

/// Chooses the frame buffer implementation and capacity policy per track.
pub trait FrameBufFactory {
    /// Builds a buffer for `buf_duration` ms of audio in format `fmt`.
    fn create(&self, buf_duration: u32, fmt: AudioDataFmt, stopping: bool) -> AbstractFrameBuf;
}

/// Owner of one track's playback lifecycle.
pub trait TrackExecutor: FrameProvider {
    /// Begins the producer and moves the track out of `Inactive`.
    fn execute(&mut self);

    /// Stops the track; idempotent once stopped.
    fn stop(&mut self);

    /// Best-effort current playback position in ms.
    fn curr_pos(&self) -> u64;

    /// Jumps to `timecode`, returning the timecode actually achieved.
    fn seek(&mut self, timecode: u64) -> u64;

    /// Current lifecycle state.
    fn state(&self) -> TrackState;

    /// Schedules a timed marker.
    fn mark(&mut self, marker: Marker);

    /// Whether the producer failed before any frame was produced.
    fn failed_before_load(&self) -> bool;
}

} // verus!
