//! The track executor: owner of one track's playback lifecycle.
//!
//! A [`LocalTrackExecutor`] owns the track's filter chain / frame buffer
//! pair, validates every lifecycle transition against the
//! [`spec_can_transition`](crate::track::spec_can_transition) table, reports
//! the playback position, and fires timed [`Marker`]s exactly once each.
//!
//! Marker callbacks are not invoked here: every fired marker is recorded as
//! a [`MarkerEvent`], and the layer driving this executor drains those
//! events with [`LocalTrackExecutor::take_marker_events`] and routes each to
//! the handler the marker names. That keeps callback dispatch outside the
//! core, so a slow handler can never stall the producer.

use crate::err::PlayerFrameError;
use crate::filter::{
    FilterView, FinalPCMFilter, spec_ignored_samples, MAX_SAMPLE_OFFSET, MAX_TIMECODE_MS,
};
use crate::playback::{Frame, ProcessingContext};
use crate::track::{spec_is_terminal, Marker, MarkerState, TrackState};
use vstd::prelude::*;

verus! {

/// One fired marker: which marker, and the outcome it fired with.
#[derive(Clone, Copy, Debug, PartialEq, Eq, Structural)]
pub struct MarkerEvent {
    pub marker: Marker,
    pub state: MarkerState,
}

/// The pending markers that survive firing every marker whose timecode lies
/// in `(lo, hi]`.
pub open spec fn spec_kept_markers(ms: Seq<Marker>, lo: int, hi: int) -> Seq<Marker>
    decreases ms.len(),
{
    if ms.len() == 0 {
        Seq::empty()
    } else {
        let rest = spec_kept_markers(ms.drop_last(), lo, hi);
        let m = ms.last();
        if lo < m.timecode <= hi {
            rest
        } else {
            rest.push(m)
        }
    }
}

/// The events fired for every marker whose timecode lies in `(lo, hi]`:
/// `at_hi` for a marker exactly at `hi`, `inside` for one short of it.
pub open spec fn spec_range_events(
    ms: Seq<Marker>,
    lo: int,
    hi: int,
    at_hi: MarkerState,
    inside: MarkerState,
) -> Seq<MarkerEvent>
    decreases ms.len(),
{
    if ms.len() == 0 {
        Seq::empty()
    } else {
        let rest = spec_range_events(ms.drop_last(), lo, hi, at_hi, inside);
        let m = ms.last();
        if lo < m.timecode <= hi {
            rest.push(
                MarkerEvent {
                    marker: m,
                    state: if m.timecode == hi {
                        at_hi
                    } else {
                        inside
                    },
                },
            )
        } else {
            rest
        }
    }
}

/// One event of `st` for every pending marker.
pub open spec fn spec_all_events(ms: Seq<Marker>, st: MarkerState) -> Seq<MarkerEvent>
    decreases ms.len(),
{
    if ms.len() == 0 {
        Seq::empty()
    } else {
        spec_all_events(ms.drop_last(), st).push(MarkerEvent { marker: ms.last(), state: st })
    }
}

/// The timecode a seek lands on: `max(requested, provided)`.
pub open spec fn spec_seek_target(requested: u64, provided: u64) -> u64 {
    if requested >= provided {
        requested
    } else {
        provided
    }
}

/// Mathematical state of a [`LocalTrackExecutor`].
#[verifier::ext_equal]
pub ghost struct ExecutorView {
    /// Lifecycle state.
    pub state: TrackState,
    /// The chain / buffer pair the track owns.
    pub chain: FilterView,
    /// Pending markers, in scheduling order.
    pub markers: Seq<Marker>,
    /// Fired marker events not yet drained by the caller.
    pub events: Seq<MarkerEvent>,
    /// Timecode of the last frame handed to the consumer.
    pub position: u64,
    /// Whether the producer failed before any frame was produced.
    pub load_failed: bool,
}

impl ExecutorView {
    /// Structural soundness: the chain / buffer pair is sound.
    pub open spec fn wf(self) -> bool {
        self.chain.wf()
    }

    /// The position estimate: the timecode most recently accepted by the
    /// buffer when one exists, else the last consumer-reported timecode.
    pub open spec fn curr_pos_spec(self) -> u64 {
        match self.chain.out.last_timecode {
            Some(t) => t,
            None => self.position,
        }
    }

    /// State after `stop()`: nothing moves from a terminal state; otherwise
    /// the backlog is discarded, the buffer terminates, the chain is closed,
    /// and every pending marker fires `STOPPED`.
    pub open spec fn after_stop(self) -> ExecutorView {
        if spec_is_terminal(self.state) {
            self
        } else {
            ExecutorView {
                state: TrackState::Stopped,
                chain: FilterView {
                    pending: Seq::empty(),
                    out: self.chain.out.after_clear().after_terminate_on_empty(),
                    ..self.chain
                },
                markers: Seq::empty(),
                events: self.events + spec_all_events(self.markers, MarkerState::STOPPED),
                ..self
            }
        }
    }

    /// State after natural end of stream: the chain is flushed (a refused
    /// final frame aborts the transition), the buffer terminates once it
    /// drains, and every pending marker fires `ENDED`.
    pub open spec fn after_finish(self) -> (ExecutorView, bool) {
        let flushed = self.chain.flushed();
        if !flushed.1 {
            (ExecutorView { chain: flushed.0, ..self }, false)
        } else {
            (
                ExecutorView {
                    state: TrackState::Finished,
                    chain: FilterView {
                        out: flushed.0.out.after_terminate_on_empty(),
                        ..flushed.0
                    },
                    markers: Seq::empty(),
                    events: self.events + spec_all_events(self.markers, MarkerState::ENDED),
                    ..self
                },
                true,
            )
        }
    }

    /// State after `seek`: the buffer is cleared, the chain resets its
    /// accumulation at `max(requested, provided)`, every marker jumped over
    /// fires `BYPASSED` (one exactly at the target fires `REACHED`), and the
    /// position moves to the target.
    pub open spec fn after_seek(self, requested: u64, provided: u64) -> ExecutorView {
        let target = spec_seek_target(requested, provided);
        let pos0 = self.curr_pos_spec();
        ExecutorView {
            state: TrackState::Playing,
            chain: FilterView {
                pending: Seq::empty(),
                out: self.chain.out.after_clear(),
                ignored: spec_ignored_samples(requested as int, provided as int, self.chain.fmt),
                base: target as int,
                offset: 0,
                ..self.chain
            },
            markers: spec_kept_markers(self.markers, pos0 as int, target as int),
            events: self.events + spec_range_events(
                self.markers,
                pos0 as int,
                target as int,
                MarkerState::REACHED,
                MarkerState::BYPASSED,
            ),
            position: target,
            ..self
        }
    }

    /// State after `mark(marker)`: on a terminal track the marker fires
    /// `STOPPED` or `ENDED` at once; one at or behind the current position
    /// fires `LATE`; otherwise it becomes pending, firing `OVERWRITTEN` for
    /// any marker already scheduled at the same timecode.
    pub open spec fn after_mark(self, marker: Marker) -> ExecutorView {
        if self.state == TrackState::Stopped {
            ExecutorView {
                events: self.events.push(MarkerEvent { marker, state: MarkerState::STOPPED }),
                ..self
            }
        } else if self.state == TrackState::Finished {
            ExecutorView {
                events: self.events.push(MarkerEvent { marker, state: MarkerState::ENDED }),
                ..self
            }
        } else if marker.timecode <= self.curr_pos_spec() {
            ExecutorView {
                events: self.events.push(MarkerEvent { marker, state: MarkerState::LATE }),
                ..self
            }
        } else {
            ExecutorView {
                markers: spec_kept_markers(
                    self.markers,
                    marker.timecode - 1,
                    marker.timecode as int,
                ).push(marker),
                events: self.events + spec_range_events(
                    self.markers,
                    marker.timecode - 1,
                    marker.timecode as int,
                    MarkerState::OVERWRITTEN,
                    MarkerState::OVERWRITTEN,
                ),
                ..self
            }
        }
    }

    /// State after the consumer takes one frame: the buffer hands out its
    /// next frame; a playable frame advances the position and fires
    /// `REACHED` for every marker at or behind it; the terminal signal ends
    /// a playing track, firing `ENDED` for every pending marker.
    pub open spec fn after_take(self) -> ExecutorView {
        let handed = self.chain.out.provide_frame();
        let stepped = ExecutorView {
            chain: FilterView { out: self.chain.out.after_provide(), ..self.chain },
            ..self
        };
        match handed {
            Option::None => stepped,
            Option::Some(fv) => {
                if fv.terminator {
                    if self.state == TrackState::Playing {
                        ExecutorView {
                            state: TrackState::Finished,
                            markers: Seq::empty(),
                            events: self.events + spec_all_events(
                                self.markers,
                                MarkerState::ENDED,
                            ),
                            ..stepped
                        }
                    } else {
                        stepped
                    }
                } else {
                    ExecutorView {
                        position: fv.timecode,
                        markers: spec_kept_markers(
                            self.markers,
                            self.position as int,
                            fv.timecode as int,
                        ),
                        events: self.events + spec_range_events(
                            self.markers,
                            self.position as int,
                            fv.timecode as int,
                            MarkerState::REACHED,
                            MarkerState::REACHED,
                        ),
                        ..stepped
                    }
                }
            },
        }
    }
}

/// Orchestrates one track's playback: owns the chain / buffer pair, runs the
/// lifecycle state machine, tracks the position and fires timed markers.
pub struct LocalTrackExecutor {
    state: TrackState,
    chain: FinalPCMFilter,
    markers: Vec<Marker>,
    events: Vec<MarkerEvent>,
    position: u64,
    load_failed: bool,
}

impl View for LocalTrackExecutor {
    type V = ExecutorView;

    closed spec fn view(&self) -> ExecutorView {
        ExecutorView {
            state: self.state,
            chain: self.chain@,
            markers: self.markers@,
            events: self.events@,
            position: self.position,
            load_failed: self.load_failed,
        }
    }
}

impl LocalTrackExecutor {
    /// Creates the executor for one track, owning the chain / buffer pair
    /// built from `context`.
    pub fn new(context: ProcessingContext) -> (r: LocalTrackExecutor)
        requires
            context.output_fmt.usable(),
            context.buf@.wf(),
        ensures
            r@.wf(),
            r@.state == TrackState::Inactive,
            r@.chain.fmt == context.output_fmt,
            r@.chain.out == context.buf@,
            r@.chain.pending == Seq::<u8>::empty(),
            r@.chain.ignored == 0,
            r@.chain.base == 0,
            r@.chain.offset == 0,
            r@.markers == Seq::<Marker>::empty(),
            r@.events == Seq::<MarkerEvent>::empty(),
            r@.position == 0,
            !r@.load_failed,
    {
        LocalTrackExecutor {
            state: TrackState::Inactive,
            chain: FinalPCMFilter::new(context),
            markers: Vec::new(),
            events: Vec::new(),
            position: 0,
            load_failed: false,
        }
    }

    /// Current lifecycle state.
    pub fn state(&self) -> (r: TrackState)
        ensures
            r == self@.state,
    {
        self.state
    }

    /// Whether the producer failed during loading, before any frame was ever
    /// produced.
    pub fn failed_before_load(&self) -> (r: bool)
        ensures
            r == self@.load_failed,
    {
        self.load_failed
    }

    /// Best-effort current playback position in ms: the timecode most
    /// recently accepted by the buffer when one exists, else the last
    /// timecode handed to the consumer.
    pub fn curr_pos(&self) -> (r: u64)
        ensures
            r == self@.curr_pos_spec(),
    {
        match self.chain.audio_buffer().last_input_timecode() {
            Some(t) => t,
            None => self.position,
        }
    }

    /// Fired marker events not yet drained, oldest first; the caller routes
    /// each to its handler and hands the drained list back empty.
    pub fn take_marker_events(&mut self) -> (r: Vec<MarkerEvent>)
        ensures
            r@ == old(self)@.events,
            final(self)@ == (ExecutorView { events: Seq::empty(), ..old(self)@ }),
    {
        let mut drained: Vec<MarkerEvent> = Vec::new();
        core::mem::swap(&mut drained, &mut self.events);
        proof {
            assert(self@ =~= (ExecutorView { events: Seq::empty(), ..old(self)@ }));
        }
        drained
    }

    /// Begins the track's lifecycle: the producer is being started, so the
    /// track moves from `Inactive` to `Loading`. Call
    /// [`Self::begin_playback`] once the producer delivers, or
    /// [`Self::fail_load`] if it never does.
    pub fn execute(&mut self)
        requires
            old(self)@.state == TrackState::Inactive,
        ensures
            final(self)@ == (ExecutorView { state: TrackState::Loading, ..old(self)@ }),
    {
        self.state = TrackState::Loading;
        proof {
            assert(self@ =~= (ExecutorView { state: TrackState::Loading, ..old(self)@ }));
        }
    }

    /// The producer is up: the track moves from `Loading` to `Playing`.
    pub fn begin_playback(&mut self)
        requires
            old(self)@.state == TrackState::Loading,
        ensures
            final(self)@ == (ExecutorView { state: TrackState::Playing, ..old(self)@ }),
    {
        self.state = TrackState::Playing;
        proof {
            assert(self@ =~= (ExecutorView { state: TrackState::Playing, ..old(self)@ }));
        }
    }

    /// Fires every pending marker with `st`, leaving none pending.
    fn fire_all(&mut self, st: MarkerState)
        ensures
            final(self)@ == (ExecutorView {
                markers: Seq::empty(),
                events: old(self)@.events + spec_all_events(old(self)@.markers, st),
                ..old(self)@
            }),
    {
        let ghost pre = self@;
        let n = self.markers.len();
        let mut i: usize = 0;
        while i < n
            invariant
                pre == old(self)@,
                i <= n,
                n == pre.markers.len(),
                self@ == (ExecutorView {
                    events: pre.events + spec_all_events(pre.markers.subrange(0, i as int), st),
                    ..pre
                }),
            decreases n - i,
        {
            let m = self.markers[i];
            self.events.push(MarkerEvent { marker: m, state: st });
            proof {
                let sub1 = pre.markers.subrange(0, i + 1);
                assert(sub1.drop_last() =~= pre.markers.subrange(0, i as int));
                assert(sub1.last() == pre.markers[i as int]);
                assert(self@.events =~= pre.events + spec_all_events(sub1, st));
                assert(self@ =~= (ExecutorView {
                    events: pre.events + spec_all_events(sub1, st),
                    ..pre
                }));
            }
            i = i + 1;
        }
        self.markers.clear();
        proof {
            assert(pre.markers.subrange(0, n as int) =~= pre.markers);
            assert(self@ =~= (ExecutorView {
                markers: Seq::empty(),
                events: pre.events + spec_all_events(pre.markers, st),
                ..pre
            }));
        }
    }

    /// Stops the track from any non-terminal state: the backlog is
    /// discarded, the buffer terminates, the chain is released and every
    /// pending marker fires `STOPPED`. A second call is a no-op.
    pub fn stop(&mut self)
        ensures
            final(self)@ == old(self)@.after_stop(),
    {
        if self.state == TrackState::Stopped || self.state == TrackState::Finished {
            return;
        }
        self.state = TrackState::Stopped;
        let buffer = self.chain.buffer_mut();
        buffer.clear();
        buffer.terminate_on_empty();
        self.chain.close();
        self.fire_all(MarkerState::STOPPED);
        proof {
            assert(self@ =~= old(self)@.after_stop());
        }
    }

    /// Reports that the producer failed while the track was still loading:
    /// the track stops, and the failure counts as a load failure exactly
    /// when no frame was ever produced.
    pub fn fail_load(&mut self)
        requires
            old(self)@.state == TrackState::Loading,
        ensures
            final(self)@ == (ExecutorView {
                load_failed: !old(self)@.chain.out.received,
                ..old(self)@.after_stop()
            }),
    {
        self.load_failed = !self.chain.audio_buffer().has_received();
        self.stop();
        proof {
            assert(self@ =~= (ExecutorView {
                load_failed: !old(self)@.chain.out.received,
                ..old(self)@.after_stop()
            }));
        }
    }

    /// Ends the track naturally: the chain's partial window is flushed as a
    /// final short frame, the buffer terminates once it drains, every
    /// pending marker fires `ENDED`, and the track is `Finished`. A refused
    /// final frame aborts the transition with nothing else changed.
    pub fn finish(&mut self) -> (r: Result<(), PlayerFrameError>)
        requires
            old(self)@.wf(),
            old(self)@.state == TrackState::Playing,
            old(self)@.chain.base <= MAX_TIMECODE_MS,
            old(self)@.chain.offset + old(self)@.chain.fmt.chunk_sample_count
                <= MAX_SAMPLE_OFFSET,
        ensures
            final(self)@.wf(),
            final(self)@ == old(self)@.after_finish().0,
            r is Ok <==> old(self)@.after_finish().1,
            r matches Err(e) ==> e.is_interrupted(),
    {
        let flushed = self.chain.flush();
        if flushed.is_err() {
            proof {
                assert(self@ =~= old(self)@.after_finish().0);
            }
            return flushed;
        }
        self.chain.buffer_mut().terminate_on_empty();
        self.state = TrackState::Finished;
        self.fire_all(MarkerState::ENDED);
        proof {
            assert(self@ =~= old(self)@.after_finish().0);
        }
        Ok(())
    }

    /// Feeds a block of scaled samples from the decoder through the chain;
    /// finished frames land in the buffer.
    pub fn feed(&mut self, samples: &[i32]) -> (r: Result<(), PlayerFrameError>)
        requires
            old(self)@.wf(),
            old(self)@.state == TrackState::Playing,
            old(self)@.chain.base <= MAX_TIMECODE_MS,
            old(self)@.chain.offset + samples@.len() * old(self)@.chain.fmt.chunk_sample_count
                + old(self)@.chain.fmt.chunk_sample_count <= MAX_SAMPLE_OFFSET,
        ensures
            final(self)@.wf(),
            final(self)@ == (ExecutorView {
                chain: old(self)@.chain.process(samples@).0,
                ..old(self)@
            }),
            r is Ok <==> old(self)@.chain.process(samples@).1,
            r matches Err(e) ==> e.is_interrupted(),
    {
        let r = self.chain.process_all(samples);
        proof {
            assert(self@ =~= (ExecutorView {
                chain: old(self)@.chain.process(samples@).0,
                ..old(self)@
            }));
        }
        r
    }

    /// Fires every pending marker with a timecode in `(lo, hi]`: `at_hi` for
    /// one exactly at `hi`, `inside` for one short of it. The rest stay
    /// pending, in order.
    fn fire_range(&mut self, lo: u64, hi: u64, at_hi: MarkerState, inside: MarkerState)
        ensures
            final(self)@ == (ExecutorView {
                markers: spec_kept_markers(old(self)@.markers, lo as int, hi as int),
                events: old(self)@.events + spec_range_events(
                    old(self)@.markers,
                    lo as int,
                    hi as int,
                    at_hi,
                    inside,
                ),
                ..old(self)@
            }),
    {
        let ghost pre = self@;
        let mut kept: Vec<Marker> = Vec::new();
        let n = self.markers.len();
        let mut i: usize = 0;
        while i < n
            invariant
                pre == old(self)@,
                i <= n,
                n == pre.markers.len(),
                self@ == (ExecutorView {
                    events: pre.events + spec_range_events(
                        pre.markers.subrange(0, i as int),
                        lo as int,
                        hi as int,
                        at_hi,
                        inside,
                    ),
                    ..pre
                }),
                kept@ == spec_kept_markers(pre.markers.subrange(0, i as int), lo as int, hi as int),
            decreases n - i,
        {
            let m = self.markers[i];
            if lo < m.timecode && m.timecode <= hi {
                let st = if m.timecode == hi {
                    at_hi
                } else {
                    inside
                };
                self.events.push(MarkerEvent { marker: m, state: st });
            } else {
                kept.push(m);
            }
            proof {
                let sub1 = pre.markers.subrange(0, i + 1);
                assert(sub1.drop_last() =~= pre.markers.subrange(0, i as int));
                assert(sub1.last() == pre.markers[i as int]);
                assert(self@.events =~= pre.events + spec_range_events(
                    sub1,
                    lo as int,
                    hi as int,
                    at_hi,
                    inside,
                ));
                assert(self@ =~= (ExecutorView {
                    events: pre.events + spec_range_events(
                        sub1,
                        lo as int,
                        hi as int,
                        at_hi,
                        inside,
                    ),
                    ..pre
                }));
                assert(kept@ =~= spec_kept_markers(sub1, lo as int, hi as int));
            }
            i = i + 1;
        }
        self.markers = kept;
        proof {
            assert(pre.markers.subrange(0, n as int) =~= pre.markers);
            assert(self@ =~= (ExecutorView {
                markers: spec_kept_markers(pre.markers, lo as int, hi as int),
                events: pre.events + spec_range_events(
                    pre.markers,
                    lo as int,
                    hi as int,
                    at_hi,
                    inside,
                ),
                ..pre
            }));
        }
    }

    /// Performs a seek the decoder achieved at `provided_time` after being
    /// asked for `requested_time`: the buffer is cleared, the chain restarts
    /// its timecodes at `max(requested_time, provided_time)`, every marker
    /// jumped over fires `BYPASSED` (one exactly at the target fires
    /// `REACHED`), and the achieved target is returned.
    pub fn apply_seek(&mut self, requested_time: u64, provided_time: u64) -> (r: u64)
        requires
            old(self)@.wf(),
            old(self)@.state == TrackState::Playing,
            requested_time <= MAX_TIMECODE_MS,
            provided_time <= MAX_TIMECODE_MS,
            requested_time > provided_time ==> (requested_time - provided_time)
                * old(self)@.chain.fmt.channel_count * old(self)@.chain.fmt.sample_rate
                <= u64::MAX,
        ensures
            final(self)@.wf(),
            final(self)@ == old(self)@.after_seek(requested_time, provided_time),
            r == spec_seek_target(requested_time, provided_time),
    {
        self.state = TrackState::Seeking;
        let pos0 = self.curr_pos();
        self.chain.buffer_mut().clear();
        self.chain.seek_performed(requested_time, provided_time);
        let target = if requested_time >= provided_time {
            requested_time
        } else {
            provided_time
        };
        self.fire_range(pos0, target, MarkerState::REACHED, MarkerState::BYPASSED);
        self.position = target;
        self.state = TrackState::Playing;
        proof {
            assert(self@ =~= old(self)@.after_seek(requested_time, provided_time));
        }
        target
    }

    /// Seeks to `timecode`, with the producer expected to land exactly
    /// there; returns the timecode playback resumes at. When the decoder
    /// reports landing elsewhere, use [`Self::apply_seek`] instead.
    pub fn seek(&mut self, timecode: u64) -> (r: u64)
        requires
            old(self)@.wf(),
            old(self)@.state == TrackState::Playing,
            timecode <= MAX_TIMECODE_MS,
        ensures
            final(self)@.wf(),
            final(self)@ == old(self)@.after_seek(timecode, timecode),
            r == timecode,
    {
        self.apply_seek(timecode, timecode)
    }

    /// Schedules `marker` to fire when playback reaches, passes, or
    /// invalidates its timecode. On a terminal track it fires `STOPPED` or
    /// `ENDED` at once; at or behind the current position it fires `LATE`;
    /// otherwise it becomes pending, and any marker already scheduled at the
    /// same timecode fires `OVERWRITTEN`.
    pub fn mark(&mut self, marker: Marker)
        ensures
            final(self)@ == old(self)@.after_mark(marker),
    {
        if self.state == TrackState::Stopped {
            self.events.push(MarkerEvent { marker, state: MarkerState::STOPPED });
            proof {
                assert(self@ =~= old(self)@.after_mark(marker));
            }
        } else if self.state == TrackState::Finished {
            self.events.push(MarkerEvent { marker, state: MarkerState::ENDED });
            proof {
                assert(self@ =~= old(self)@.after_mark(marker));
            }
        } else if marker.timecode <= self.curr_pos() {
            self.events.push(MarkerEvent { marker, state: MarkerState::LATE });
            proof {
                assert(self@ =~= old(self)@.after_mark(marker));
            }
        } else {
            self.fire_range(
                marker.timecode - 1,
                marker.timecode,
                MarkerState::OVERWRITTEN,
                MarkerState::OVERWRITTEN,
            );
            self.markers.push(marker);
            proof {
                assert(self@ =~= old(self)@.after_mark(marker));
            }
        }
    }

    /// Cancels the pending marker scheduled at `timecode`, firing `REMOVED`
    /// for it; false when none is pending there. A marker can never be
    /// pending at timecode 0, since scheduling one there fires `LATE` at
    /// once.
    pub fn remove_marker(&mut self, timecode: u64) -> (r: bool)
        ensures
            timecode == 0 ==> final(self)@ == old(self)@ && !r,
            timecode > 0 ==> final(self)@ == (ExecutorView {
                markers: spec_kept_markers(
                    old(self)@.markers,
                    timecode - 1,
                    timecode as int,
                ),
                events: old(self)@.events + spec_range_events(
                    old(self)@.markers,
                    timecode - 1,
                    timecode as int,
                    MarkerState::REMOVED,
                    MarkerState::REMOVED,
                ),
                ..old(self)@
            }),
            timecode > 0 ==> (r <==> final(self)@.markers.len() < old(self)@.markers.len()),
    {
        if timecode == 0 {
            return false;
        }
        let before = self.markers.len();
        self.fire_range(timecode - 1, timecode, MarkerState::REMOVED, MarkerState::REMOVED);
        self.markers.len() < before
    }

    /// Non-blocking take of the next finished frame for delivery. A playable
    /// frame advances the position and fires `REACHED` for every marker at
    /// or behind it; the terminal signal ends a playing track, firing
    /// `ENDED` for every pending marker.
    pub fn provide(&mut self) -> (r: Option<Frame>)
        requires
            old(self)@.wf(),
        ensures
            final(self)@.wf(),
            final(self)@ == old(self)@.after_take(),
            r matches Some(f) ==> old(self)@.chain.out.provide_frame() == Some(f@),
            r is None <==> old(self)@.chain.out.provide_frame() is None,
    {
        let taken = self.chain.buffer_mut().provide();
        match &taken {
            Option::Some(f) => {
                if f.terminator {
                    if self.state == TrackState::Playing {
                        self.state = TrackState::Finished;
                        self.fire_all(MarkerState::ENDED);
                    }
                    proof {
                        assert(self@ =~= old(self)@.after_take());
                    }
                } else {
                    let pos0 = self.position;
                    let timecode = f.timecode;
                    self.fire_range(pos0, timecode, MarkerState::REACHED, MarkerState::REACHED);
                    self.position = timecode;
                    proof {
                        assert(self@ =~= old(self)@.after_take());
                    }
                }
            },
            Option::None => {
                proof {
                    assert(self@ =~= old(self)@.after_take());
                }
            },
        }
        taken
    }

    /// Take of the next frame with a deadline, as the delivery layer's
    /// blocking pull; position and markers move as in [`Self::provide`].
    /// When the buffer is empty with no termination in sight the wait cannot
    /// be satisfied here: `Interrupted` under an external stop signal,
    /// otherwise `Timeout`.
    pub fn provide_with(&mut self, timeout: Option<u64>) -> (r: Result<Frame, PlayerFrameError>)
        requires
            old(self)@.wf(),
        ensures
            final(self)@.wf(),
            final(self)@ == old(self)@.after_take(),
            r is Ok <==> old(self)@.chain.out.provide_frame() is Some,
            r matches Ok(f) ==> old(self)@.chain.out.provide_frame() == Some(f@),
            r matches Err(e) ==> (e.is_interrupted() <==> old(self)@.chain.out.stopping),
    {
        let stopping = self.chain.audio_buffer().is_stopping();
        match self.provide() {
            Option::Some(f) => Ok(f),
            Option::None => {
                let _ = timeout;
                if stopping {
                    Err(
                        PlayerFrameError::Interrupted(
                            "the wait for a frame was stopped".to_owned(),
                        ),
                    )
                } else {
                    Err(PlayerFrameError::Timeout("no frame arrived before the deadline".to_owned()))
                }
            },
        }
    }
}

/// Stopping is idempotent: a second `stop()` changes nothing, and from a
/// terminal state nothing moves at all.
pub proof fn lemma_stop_idempotent(v: ExecutorView)
    ensures
        v.after_stop().after_stop() == v.after_stop(),
        spec_is_terminal(v.state) ==> v.after_stop() == v,
{
    assert(v.after_stop().after_stop() =~= v.after_stop());
}

/// Every event fired for the range `(lo, hi]` belongs to a marker in that
/// range, with `at_hi` exactly at `hi` and `inside` otherwise.
pub proof fn lemma_range_events_states(
    ms: Seq<Marker>,
    lo: int,
    hi: int,
    at_hi: MarkerState,
    inside: MarkerState,
)
    ensures
        forall|k: int|
            0 <= k < spec_range_events(ms, lo, hi, at_hi, inside).len() ==> {
                let e = #[trigger] spec_range_events(ms, lo, hi, at_hi, inside)[k];
                &&& lo < e.marker.timecode <= hi
                &&& e.state == (if e.marker.timecode == hi {
                    at_hi
                } else {
                    inside
                })
            },
    decreases ms.len(),
{
    if ms.len() > 0 {
        lemma_range_events_states(ms.drop_last(), lo, hi, at_hi, inside);
    }
}

/// A pending marker whose timecode lies in `(lo, hi]` fires: its event is in
/// the fired range events.
pub proof fn lemma_range_events_fires(
    ms: Seq<Marker>,
    lo: int,
    hi: int,
    at_hi: MarkerState,
    inside: MarkerState,
    j: int,
)
    requires
        0 <= j < ms.len(),
        lo < ms[j].timecode <= hi,
    ensures
        spec_range_events(ms, lo, hi, at_hi, inside).contains(
            MarkerEvent {
                marker: ms[j],
                state: if ms[j].timecode == hi {
                    at_hi
                } else {
                    inside
                },
            },
        ),
    decreases ms.len(),
{
    let events = spec_range_events(ms, lo, hi, at_hi, inside);
    if j == ms.len() - 1 {
        assert(ms.last() == ms[j]);
        assert(events.last() == (MarkerEvent {
            marker: ms[j],
            state: if ms[j].timecode == hi {
                at_hi
            } else {
                inside
            },
        }));
    } else {
        assert(ms.drop_last()[j] == ms[j]);
        lemma_range_events_fires(ms.drop_last(), lo, hi, at_hi, inside, j);
        let e = MarkerEvent {
            marker: ms[j],
            state: if ms[j].timecode == hi {
                at_hi
            } else {
                inside
            },
        };
        let prev = spec_range_events(ms.drop_last(), lo, hi, at_hi, inside);
        let k = choose|k: int| 0 <= k < prev.len() && prev[k] == e;
        assert(events[k] == e);
    }
}

/// A marker jumped over by a forward seek — scheduled strictly between the
/// position the seek left and the timecode it landed on — fires `BYPASSED`,
/// and never `REACHED`.
pub proof fn lemma_seek_bypasses_marker(v: ExecutorView, requested: u64, provided: u64, j: int)
    requires
        0 <= j < v.markers.len(),
        v.curr_pos_spec() < v.markers[j].timecode < spec_seek_target(requested, provided),
    ensures
        v.after_seek(requested, provided).events.contains(
            MarkerEvent { marker: v.markers[j], state: MarkerState::BYPASSED },
        ),
        !v.after_seek(requested, provided).events.contains(
            MarkerEvent { marker: v.markers[j], state: MarkerState::REACHED },
        ) || v.events.contains(
            MarkerEvent { marker: v.markers[j], state: MarkerState::REACHED },
        ),
{
    let pos0 = v.curr_pos_spec() as int;
    let target = spec_seek_target(requested, provided) as int;
    let fired = spec_range_events(
        v.markers,
        pos0,
        target,
        MarkerState::REACHED,
        MarkerState::BYPASSED,
    );
    let all = v.after_seek(requested, provided).events;
    lemma_range_events_fires(v.markers, pos0, target, MarkerState::REACHED, MarkerState::BYPASSED, j);
    let bypassed = MarkerEvent { marker: v.markers[j], state: MarkerState::BYPASSED };
    let k = choose|k: int| 0 <= k < fired.len() && fired[k] == bypassed;
    assert(all[v.events.len() + k] == bypassed);
    assert(all.contains(bypassed));
    let reached = MarkerEvent { marker: v.markers[j], state: MarkerState::REACHED };
    if all.contains(reached) && !v.events.contains(reached) {
        let k2 = choose|k2: int| 0 <= k2 < all.len() && all[k2] == reached;
        assert(k2 >= v.events.len()) by {
            if k2 < v.events.len() {
                assert(v.events[k2] == reached);
            }
        }
        assert(fired[k2 - v.events.len()] == reached);
        lemma_range_events_states(v.markers, pos0, target, MarkerState::REACHED, MarkerState::BYPASSED);
        assert(false);
    }
}

} // verus!
