//! Track metadata, lifecycle states and timed markers.
//!
//! [`TrackState`] is the track executor's finite state machine;
//! [`spec_can_transition`] is its transition table. `Stopped` and
//! `Finished` are terminal: nothing is reachable from them.

use vstd::prelude::*;

verus! {

/// A thing the player can load and play.
pub trait Loadable {

}

/// Receiver of lifecycle notifications from a track executor. Implementors
/// must not block indefinitely inside these callbacks.
pub trait StateListener {
    /// A decode or filter failure ended the producer.
    fn on_track_exception(&self, track: Option<TrackInfo>, message: String);

    /// No frame was produced within `threshold_ms`.
    fn on_track_stuck(&self, track: Option<TrackInfo>, threshold_ms: u64);
}

/// Descriptive metadata of one track.
pub struct TrackInfo {
    pub title: String,
    pub author: String,
    pub length: Option<u64>,
    pub id: String,
    pub is_stream: bool,
    pub uri: String,
}

impl TrackInfo {
    pub fn new(
        title: String,
        author: String,
        length: Option<u64>,
        id: String,
        is_stream: bool,
        uri: String,
    ) -> (r: Self)
        ensures
            r.title == title,
            r.author == author,
            r.length == length,
            r.id == id,
            r.is_stream == is_stream,
            r.uri == uri,
    {
        TrackInfo { title, author, length, id, is_stream, uri }
    }
}

/// Lifecycle state of one track.
#[derive(Clone, Copy, Debug, PartialEq, Eq, Structural)]
pub enum TrackState {
    Inactive,
    Loading,
    Playing,
    Seeking,
    Stopped,
    Finished,
}

/// The executor's transition table: exactly the moves the lifecycle allows.
///
/// `Inactive -> Loading -> Playing <-> Seeking`; any of `Loading`, `Playing`
/// or `Seeking` may move to `Stopped`; `Playing -> Finished` on natural end
/// of stream. `Stopped` and `Finished` admit no further transition, and a
/// load failure is reported out of band, never as `Loading -> Finished`.
pub open spec fn spec_can_transition(from: TrackState, to: TrackState) -> bool {
    match (from, to) {
        (TrackState::Inactive, TrackState::Loading) => true,
        (TrackState::Loading, TrackState::Playing) => true,
        (TrackState::Loading, TrackState::Stopped) => true,
        (TrackState::Playing, TrackState::Seeking) => true,
        (TrackState::Playing, TrackState::Stopped) => true,
        (TrackState::Playing, TrackState::Finished) => true,
        (TrackState::Seeking, TrackState::Playing) => true,
        (TrackState::Seeking, TrackState::Stopped) => true,
        _ => false,
    }
}

/// A state from which no transition is reachable.
pub open spec fn spec_is_terminal(s: TrackState) -> bool {
    s == TrackState::Stopped || s == TrackState::Finished
}

/// Decides whether the lifecycle allows moving from `from` to `to`.
pub fn can_transition(from: TrackState, to: TrackState) -> (r: bool)
    ensures
        r == spec_can_transition(from, to),
{
    match (from, to) {
        (TrackState::Inactive, TrackState::Loading) => true,
        (TrackState::Loading, TrackState::Playing) => true,
        (TrackState::Loading, TrackState::Stopped) => true,
        (TrackState::Playing, TrackState::Seeking) => true,
        (TrackState::Playing, TrackState::Stopped) => true,
        (TrackState::Playing, TrackState::Finished) => true,
        (TrackState::Seeking, TrackState::Playing) => true,
        (TrackState::Seeking, TrackState::Stopped) => true,
        _ => false,
    }
}

/// From `Stopped` or `Finished` no further transition is reachable.
pub proof fn lemma_terminal_states_are_final(to: TrackState)
    ensures
        !spec_can_transition(TrackState::Stopped, to),
        !spec_can_transition(TrackState::Finished, to),
{
}

/// `Loading` never moves straight to `Finished`: a load failure is reported
/// via `failed_before_load`, not as a completed track.
pub proof fn lemma_loading_never_finishes_directly()
    ensures
        !spec_can_transition(TrackState::Loading, TrackState::Finished),
{
}

/// Why a track ended.
#[derive(Clone, Copy, Debug, PartialEq, Eq, Structural)]
pub enum TrackEndReason {
    Finished,
    LoadFailed,
    Stopped,
    Replaced,
    Cleanup,
}

impl TrackEndReason {
    /// Whether the player may move on to the next queued track.
    pub fn can_start_next(&self) -> (r: bool)
        ensures
            r == (*self == TrackEndReason::Finished || *self == TrackEndReason::LoadFailed),
    {
        match self {
            Self::Finished | Self::LoadFailed => true,
            _ => false,
        }
    }
}

/// A callback scheduled at a playback timecode. The handler is identified by
/// a caller-chosen id; the delivery layer owning the actual callback routes
/// fired events back to it.
#[derive(Clone, Copy, Debug, PartialEq, Eq, Structural)]
pub struct Marker {
    pub timecode: u64,
    pub handler: u64,
}

impl Marker {
    pub fn new(timecode: u64, handler: u64) -> (r: Self)
        ensures
            r.timecode == timecode,
            r.handler == handler,
    {
        Marker { timecode, handler }
    }
}

/// Receiver of the outcome of one marker.
pub trait MarkerHandler {
    /// Called exactly once per marker with its outcome.
    fn handle(&self, state: MarkerState);
}

/// Outcome of a marker; each marker fires exactly once with one of these.
#[derive(Clone, Copy, Debug, PartialEq, Eq, Structural)]
pub enum MarkerState {
    /// Playback arrived at the marked timecode.
    REACHED,
    /// The marker was cancelled explicitly.
    REMOVED,
    /// A new marker at the same timecode replaced it.
    OVERWRITTEN,
    /// A seek jumped over the marked timecode.
    BYPASSED,
    /// The track was stopped before the mark was reached.
    STOPPED,
    /// Playback had already passed the mark when it was scheduled.
    LATE,
    /// The track finished before the mark was reached.
    ENDED,
}

} // verus!
