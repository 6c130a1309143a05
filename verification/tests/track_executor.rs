use jukebox::executor::LocalTrackExecutor;
use jukebox::fmt::AudioDataFmt;
use jukebox::playback::{AbstractFrameBuf, ProcessingContext};
use jukebox::player::{AudioConfig, AudioPlayerOpts};
use jukebox::track::{can_transition, Marker, MarkerState, TrackState};

fn stereo_48k() -> AudioDataFmt {
    AudioDataFmt::new(2, 48000, 960)
}

fn executor() -> LocalTrackExecutor {
    let fmt = stereo_48k();
    let buf = AbstractFrameBuf::new(400, fmt, false);
    let mut config = AudioConfig::default();
    config.output_fmt = fmt;
    let context = ProcessingContext::new(config, buf, AudioPlayerOpts::new(), fmt);
    LocalTrackExecutor::new(context)
}

fn playing_executor() -> LocalTrackExecutor {
    let mut exec = executor();
    exec.execute();
    exec.begin_playback();
    exec
}

#[test]
fn lifecycle_reaches_playing() {
    let mut exec = executor();
    assert_eq!(exec.state(), TrackState::Inactive);
    exec.execute();
    assert_eq!(exec.state(), TrackState::Loading);
    exec.begin_playback();
    assert_eq!(exec.state(), TrackState::Playing);
    assert!(!exec.failed_before_load());
}

#[test]
fn terminal_states_admit_no_transition() {
    for target in [
        TrackState::Inactive,
        TrackState::Loading,
        TrackState::Playing,
        TrackState::Seeking,
        TrackState::Stopped,
        TrackState::Finished,
    ] {
        assert!(!can_transition(TrackState::Stopped, target));
        assert!(!can_transition(TrackState::Finished, target));
    }
    assert!(!can_transition(TrackState::Loading, TrackState::Finished));
    assert!(can_transition(TrackState::Playing, TrackState::Seeking));
    assert!(can_transition(TrackState::Seeking, TrackState::Playing));
}

#[test]
fn stop_is_idempotent() {
    let mut exec = playing_executor();
    exec.stop();
    assert_eq!(exec.state(), TrackState::Stopped);
    exec.stop();
    assert_eq!(exec.state(), TrackState::Stopped);
    assert!(exec.take_marker_events().is_empty());
}

#[test]
fn stop_fires_pending_markers() {
    let mut exec = playing_executor();
    exec.mark(Marker::new(9000, 1));
    exec.stop();
    let events = exec.take_marker_events();
    assert_eq!(events.len(), 1);
    assert_eq!(events[0].marker.timecode, 9000);
    assert_eq!(events[0].state, MarkerState::STOPPED);
}

#[test]
fn failed_load_is_reported() {
    let mut exec = executor();
    exec.execute();
    exec.fail_load();
    assert_eq!(exec.state(), TrackState::Stopped);
    assert!(exec.failed_before_load());
}

#[test]
fn seek_bypasses_skipped_markers() {
    let mut exec = playing_executor();
    exec.mark(Marker::new(5000, 1));
    assert!(exec.take_marker_events().is_empty(), "the marker is pending");
    let landed = exec.seek(10000);
    assert_eq!(landed, 10000);
    assert_eq!(exec.state(), TrackState::Playing);
    assert_eq!(exec.curr_pos(), 10000);
    let events = exec.take_marker_events();
    assert_eq!(events.len(), 1);
    assert_eq!(events[0].marker.timecode, 5000);
    assert_eq!(events[0].state, MarkerState::BYPASSED);
    assert!(!exec.remove_marker(5000), "the bypassed marker is gone");
}

#[test]
fn seek_spares_markers_beyond_the_target() {
    let mut exec = playing_executor();
    exec.mark(Marker::new(20000, 1));
    exec.seek(10000);
    assert!(exec.take_marker_events().is_empty());
    assert!(exec.remove_marker(20000), "the marker is still pending");
}

#[test]
fn seek_with_a_differing_landing_uses_the_later_time() {
    let mut exec = playing_executor();
    let landed = exec.apply_seek(10000, 9500);
    assert_eq!(landed, 10000);
    // the chain then resumes at the requested time: feed the 48000-sample
    // gap plus one full window and read the frame's timecode
    assert!(exec.feed(&vec![0i32; 48000 + 1920]).is_ok());
    let frame = exec.provide().expect("first frame after the seek");
    assert_eq!(frame.timecode, 10000);
}

#[test]
fn late_marker_fires_immediately() {
    let mut exec = playing_executor();
    exec.mark(Marker::new(0, 3));
    let events = exec.take_marker_events();
    assert_eq!(events.len(), 1);
    assert_eq!(events[0].state, MarkerState::LATE);
}

#[test]
fn marker_on_a_stopped_track_fires_stopped() {
    let mut exec = playing_executor();
    exec.stop();
    exec.mark(Marker::new(7000, 1));
    let events = exec.take_marker_events();
    assert_eq!(events.len(), 1);
    assert_eq!(events[0].state, MarkerState::STOPPED);
}

#[test]
fn remark_at_the_same_timecode_overwrites() {
    let mut exec = playing_executor();
    exec.mark(Marker::new(8000, 1));
    exec.mark(Marker::new(8000, 2));
    let events = exec.take_marker_events();
    assert_eq!(events.len(), 1);
    assert_eq!(events[0].marker.handler, 1);
    assert_eq!(events[0].state, MarkerState::OVERWRITTEN);
    // only the new marker is pending
    assert!(exec.remove_marker(8000));
    assert!(!exec.remove_marker(8000));
}

#[test]
fn removing_a_marker_fires_removed() {
    let mut exec = playing_executor();
    exec.mark(Marker::new(6000, 4));
    assert!(exec.remove_marker(6000));
    let events = exec.take_marker_events();
    assert_eq!(events.len(), 1);
    assert_eq!(events[0].marker.handler, 4);
    assert_eq!(events[0].state, MarkerState::REMOVED);
}

#[test]
fn markers_fire_reached_as_frames_are_delivered() {
    let mut exec = playing_executor();
    exec.mark(Marker::new(10, 5));
    // two full windows: frames at 0 ms and 20 ms
    assert!(exec.feed(&vec![0i32; 1920 * 2]).is_ok());
    let first = exec.provide().expect("frame at 0");
    assert_eq!(first.timecode, 0);
    assert!(exec.take_marker_events().is_empty(), "position 0 has not reached 10 ms");
    let second = exec.provide().expect("frame at 20");
    assert_eq!(second.timecode, 20);
    let events = exec.take_marker_events();
    assert_eq!(events.len(), 1);
    assert_eq!(events[0].marker.handler, 5);
    assert_eq!(events[0].state, MarkerState::REACHED);
}

#[test]
fn finish_flushes_terminates_and_fires_ended() {
    let mut exec = playing_executor();
    exec.mark(Marker::new(90000, 6));
    assert!(exec.feed(&vec![0i32; 1920]).is_ok());
    assert!(exec.finish().is_ok());
    assert_eq!(exec.state(), TrackState::Finished);
    let events = exec.take_marker_events();
    assert_eq!(events.len(), 1);
    assert_eq!(events[0].state, MarkerState::ENDED);
    // the backlog still drains, then the terminal signal follows
    assert_eq!(exec.provide().expect("buffered frame").timecode, 0);
    let terminal = exec.provide().expect("terminal signal");
    assert!(terminal.terminator);
    let waited = exec.provide_with(Some(0)).expect("terminal signal stays prompt");
    assert!(waited.terminator);
}

#[test]
fn stop_unblocks_the_consumer_promptly() {
    let mut exec = playing_executor();
    assert!(exec.feed(&vec![0i32; 1920]).is_ok());
    exec.stop();
    // the stale backlog is discarded and the terminal signal comes at once
    let terminal = exec.provide_with(None).expect("terminal signal");
    assert!(terminal.terminator);
}

#[test]
fn context_mirrors_the_hotswap_flag() {
    let fmt = AudioDataFmt::new(2, 48000, 960);
    let buf = AbstractFrameBuf::new(400, fmt, false);
    let mut config = AudioConfig::default();
    config.output_fmt = fmt;
    config.hotswap = true;
    let context = ProcessingContext::new(config, buf, AudioPlayerOpts::new(), fmt);
    assert!(context.hotswap);
    assert_eq!(context.output_fmt, fmt);
}

#[test]
fn position_follows_producer_then_consumer() {
    let mut exec = playing_executor();
    assert_eq!(exec.curr_pos(), 0);
    assert!(exec.feed(&vec![0i32; 1920 * 2]).is_ok());
    // nothing pulled yet: the freshest accepted frame reports the position
    assert_eq!(exec.curr_pos(), 20);
}
