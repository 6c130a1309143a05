use jukebox::err::PlayerFrameError;
use jukebox::fmt::AudioDataFmt;
use jukebox::playback::{AbstractFrameBuf, Frame};

fn stereo_48k() -> AudioDataFmt {
    // frame_duration = 960 * 1000 / 48000 = 20 ms
    AudioDataFmt::new(2, 48000, 960)
}

fn frame(timecode: u64, payload: Vec<u8>) -> Frame {
    Frame { timecode, volume: 100, data: payload, format: stereo_48k(), terminator: false }
}

#[test]
fn capacity_follows_buffer_duration() {
    // 400 ms of 20 ms frames -> 20 slots
    let buf = AbstractFrameBuf::new(400, stereo_48k(), false);
    assert_eq!(buf.full_capacity(), 20);
    assert_eq!(buf.remaining_capacity(), 20);
}

#[test]
fn capacity_rounds_up() {
    // ceil(410 / 20) = 21
    let buf = AbstractFrameBuf::new(410, stereo_48k(), false);
    assert_eq!(buf.full_capacity(), 21);
}

#[test]
fn frames_come_back_in_insertion_order() {
    let mut buf = AbstractFrameBuf::new(400, stereo_48k(), false);
    assert!(buf.consume(frame(0, vec![1, 2])).is_ok());
    assert!(buf.consume(frame(20, vec![3, 4])).is_ok());
    assert!(buf.consume(frame(40, vec![5, 6])).is_ok());

    let first = buf.provide().expect("first frame");
    assert_eq!(first.timecode, 0);
    assert_eq!(first.data, vec![1, 2]);
    let second = buf.provide().expect("second frame");
    assert_eq!(second.timecode, 20);
    assert_eq!(second.data, vec![3, 4]);
    let third = buf.provide().expect("third frame");
    assert_eq!(third.timecode, 40);
    assert_eq!(third.data, vec![5, 6]);
    assert!(buf.provide().is_none());
}

#[test]
fn full_buffer_refuses_the_next_insert() {
    let mut buf = AbstractFrameBuf::new(400, stereo_48k(), false);
    for i in 0..20 {
        assert!(buf.consume(frame(i * 20, vec![0])).is_ok());
    }
    assert_eq!(buf.remaining_capacity(), 0);
    let refused = buf.consume(frame(400, vec![0]));
    assert!(matches!(refused, Err(PlayerFrameError::Interrupted(_))));
    // nothing was lost or reordered
    assert_eq!(buf.provide().expect("head survives").timecode, 0);
}

#[test]
fn clear_discards_every_stale_frame() {
    let mut buf = AbstractFrameBuf::new(400, stereo_48k(), false);
    assert!(buf.consume(frame(0, vec![9])).is_ok());
    assert!(buf.consume(frame(20, vec![9])).is_ok());
    buf.clear();
    assert!(buf.consume(frame(100, vec![7])).is_ok());
    let only = buf.provide().expect("the fresh frame");
    assert_eq!(only.timecode, 100);
    assert_eq!(only.data, vec![7]);
    assert!(buf.provide().is_none());
}

#[test]
fn clear_on_insert_supersedes_stale_audio() {
    let mut buf = AbstractFrameBuf::new(400, stereo_48k(), false);
    assert!(buf.consume(frame(0, vec![9])).is_ok());
    assert!(!buf.will_clear_on_insert());
    buf.clear_on_insert();
    assert!(buf.will_clear_on_insert());
    assert!(buf.consume(frame(500, vec![8])).is_ok());
    assert!(!buf.will_clear_on_insert());
    let only = buf.provide().expect("the hot-swapped frame");
    assert_eq!(only.timecode, 500);
    assert!(buf.provide().is_none());
}

#[test]
fn termination_after_drain_returns_promptly() {
    let mut buf = AbstractFrameBuf::new(400, stereo_48k(), false);
    assert!(buf.consume(frame(0, vec![1])).is_ok());
    buf.terminate_on_empty();
    // the backlog still drains
    assert_eq!(buf.provide().expect("buffered frame").timecode, 0);
    // and the next blocking take returns the terminal signal at once
    let terminal = buf.provide_with(Some(0)).expect("terminal signal");
    assert!(terminal.terminator);
    assert!(terminal.data.is_empty());
    assert!(buf.wait_for_termination().is_ok());
}

#[test]
fn terminate_on_empty_refuses_further_inserts() {
    let mut buf = AbstractFrameBuf::new(400, stereo_48k(), false);
    buf.terminate_on_empty();
    assert!(buf.wait_for_termination().is_ok());
    let refused = buf.consume(frame(0, vec![1]));
    assert!(matches!(refused, Err(PlayerFrameError::Interrupted(_))));
}

#[test]
fn empty_buffer_times_out_without_termination() {
    let mut buf = AbstractFrameBuf::new(400, stereo_48k(), false);
    let waited = buf.provide_with(Some(5));
    assert!(matches!(waited, Err(PlayerFrameError::Timeout(_))));
    let parked = buf.wait_for_termination();
    assert!(matches!(parked, Err(PlayerFrameError::Interrupted(_))));
}

#[test]
fn stopping_buffer_interrupts_the_wait() {
    let mut buf = AbstractFrameBuf::new(400, stereo_48k(), true);
    let waited = buf.provide_with(None);
    assert!(matches!(waited, Err(PlayerFrameError::Interrupted(_))));
}

#[test]
fn provide_mut_fills_the_slot() {
    let mut buf = AbstractFrameBuf::new(400, stereo_48k(), false);
    assert!(buf.consume(frame(60, vec![4, 2])).is_ok());
    let mut slot = frame(0, vec![]);
    assert!(buf.provide_mut(&mut slot));
    assert_eq!(slot.timecode, 60);
    assert_eq!(slot.data, vec![4, 2]);
    assert!(!buf.provide_mut(&mut slot));
    // the failed take left the slot alone
    assert_eq!(slot.timecode, 60);
}

#[test]
fn provide_mut_with_reports_the_deadline() {
    let mut buf = AbstractFrameBuf::new(400, stereo_48k(), false);
    let mut slot = frame(0, vec![]);
    let waited = buf.provide_mut_with(&mut slot, Some(1));
    assert!(matches!(waited, Err(PlayerFrameError::Timeout(_))));
    assert!(buf.consume(frame(80, vec![5])).is_ok());
    assert_eq!(buf.provide_mut_with(&mut slot, Some(1)).expect("a frame"), true);
    assert_eq!(slot.timecode, 80);
}

#[test]
fn last_input_timecode_tracks_the_producer() {
    let mut buf = AbstractFrameBuf::new(400, stereo_48k(), false);
    assert!(!buf.has_received());
    assert_eq!(buf.last_input_timecode(), None);
    assert!(buf.consume(frame(140, vec![1])).is_ok());
    assert!(buf.has_received());
    assert_eq!(buf.last_input_timecode(), Some(140));
    // taking frames does not move the producer-side timecode
    let _ = buf.provide();
    assert_eq!(buf.last_input_timecode(), Some(140));
}

#[test]
fn error_descriptions_name_the_failure() {
    let mut buf = AbstractFrameBuf::new(400, stereo_48k(), false);
    let timeout = buf.provide_with(Some(1)).unwrap_err();
    assert_eq!(timeout.describe(), "Frame timed out");
    buf.terminate_on_empty();
    let interrupted = buf.consume(frame(0, vec![])).unwrap_err();
    assert_eq!(interrupted.describe(), "Frame was interrupted");
}
