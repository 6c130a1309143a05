use jukebox::filter::{decode_sample, FinalPCMFilter};
use jukebox::fmt::AudioDataFmt;
use jukebox::playback::{AbstractFrameBuf, ProcessingContext};
use jukebox::player::{AudioConfig, AudioPlayerOpts};

fn stereo_48k() -> AudioDataFmt {
    AudioDataFmt::new(2, 48000, 960)
}

fn terminal_filter() -> FinalPCMFilter {
    let fmt = stereo_48k();
    let buf = AbstractFrameBuf::new(400, fmt, false);
    let mut config = AudioConfig::default();
    config.output_fmt = fmt;
    let context = ProcessingContext::new(config, buf, AudioPlayerOpts::new(), fmt);
    FinalPCMFilter::new(context)
}

#[test]
fn decode_sample_saturates_and_is_monotonic() {
    // scaled representation: the sample value times 32768
    assert_eq!(decode_sample((2.0f32 * 32768.0) as i32), 32767);
    assert_eq!(decode_sample((-2.0f32 * 32768.0) as i32), -32768);
    assert_eq!(decode_sample((0.0f32 * 32768.0) as i32), 0);
    assert_eq!(decode_sample(32767), 32767);
    assert_eq!(decode_sample(32768), 32767);
    assert_eq!(decode_sample(-32768), -32768);
    assert_eq!(decode_sample(-32769), -32768);
    let mut previous = i16::MIN;
    for scaled in [-70000, -32769, -32768, -1, 0, 1, 32767, 32768, 70000] {
        let decoded = decode_sample(scaled);
        assert!(decoded >= previous, "conversion must never wrap");
        previous = decoded;
    }
}

#[test]
fn a_full_window_becomes_one_frame() {
    let mut chain = terminal_filter();
    // frame_sample_count = 960 * 2 = 1920 samples per frame
    let mut samples = vec![0i32; 1920];
    samples[0] = 258; // little-endian bytes 0x02, 0x01
    assert!(chain.process_all(&samples).is_ok());
    let frame = chain.buffer_mut().provide().expect("one finished frame");
    assert_eq!(frame.timecode, 0);
    assert_eq!(frame.data.len(), 3840);
    assert_eq!(frame.data[0], 2);
    assert_eq!(frame.data[1], 1);
    assert!(frame.data[2..].iter().all(|b| *b == 0));
    assert!(!frame.terminator);
    assert!(chain.buffer_mut().provide().is_none());
}

#[test]
fn frame_timecodes_advance_by_the_chunk_duration() {
    let mut chain = terminal_filter();
    let samples = vec![0i32; 1920 * 3];
    assert!(chain.process_all(&samples).is_ok());
    let buf = chain.buffer_mut();
    assert_eq!(buf.provide().expect("frame").timecode, 0);
    assert_eq!(buf.provide().expect("frame").timecode, 20);
    assert_eq!(buf.provide().expect("frame").timecode, 40);
}

#[test]
fn a_partial_window_emits_nothing_until_flushed() {
    let mut chain = terminal_filter();
    let samples = vec![3i32; 100];
    assert!(chain.process_all(&samples).is_ok());
    assert!(chain.buffer_mut().provide().is_none());
    assert!(chain.flush().is_ok());
    let short = chain.buffer_mut().provide().expect("the padded final frame");
    assert_eq!(short.data.len(), 3840);
    assert_eq!(short.data[0], 3);
    assert!(short.data[200..].iter().all(|b| *b == 0), "flush pads with silence");
    // flushing again with nothing pending is a no-op
    assert!(chain.flush().is_ok());
    assert!(chain.buffer_mut().provide().is_none());
}

#[test]
fn seek_discards_the_gap_and_resumes_at_the_requested_time() {
    let mut chain = terminal_filter();
    // requested 10000 ms, provided 9500 ms:
    // ignored samples = (10000 - 9500) * 2 * 48000 / 1000 = 48000
    chain.seek_performed(10000, 9500);
    let gap = vec![0i32; 48000];
    assert!(chain.process_all(&gap).is_ok());
    assert!(
        chain.buffer_mut().provide().is_none(),
        "everything before the requested time is discarded"
    );
    let window = vec![0i32; 1920];
    assert!(chain.process_all(&window).is_ok());
    let first = chain.buffer_mut().provide().expect("first frame after the seek");
    assert_eq!(first.timecode, 10000);
}

#[test]
fn seek_landing_late_ignores_nothing() {
    let mut chain = terminal_filter();
    // provided beyond requested: timecodes resume at the provided time
    chain.seek_performed(5000, 6000);
    let window = vec![0i32; 1920];
    assert!(chain.process_all(&window).is_ok());
    let first = chain.buffer_mut().provide().expect("first frame after the seek");
    assert_eq!(first.timecode, 6000);
}

#[test]
fn seek_drops_the_partial_window() {
    let mut chain = terminal_filter();
    let partial = vec![7i32; 500];
    assert!(chain.process_all(&partial).is_ok());
    chain.seek_performed(1000, 1000);
    let window = vec![0i32; 1920];
    assert!(chain.process_all(&window).is_ok());
    let first = chain.buffer_mut().provide().expect("frame");
    assert_eq!(first.timecode, 1000);
    assert!(first.data.iter().all(|b| *b == 0), "no stale sample survives the seek");
}

#[test]
fn processing_stops_when_the_buffer_is_full() {
    let fmt = stereo_48k();
    // room for a single frame: 20 ms of 20 ms frames
    let buf = AbstractFrameBuf::new(20, fmt, false);
    let mut config = AudioConfig::default();
    config.output_fmt = fmt;
    let context = ProcessingContext::new(config, buf, AudioPlayerOpts::new(), fmt);
    let mut chain = FinalPCMFilter::new(context);
    assert_eq!(chain.audio_buffer().full_capacity(), 1);
    let refused = chain.process_all(&vec![0i32; 1920 * 2]);
    assert!(refused.is_err(), "the second frame finds no slot");
    let first = chain.buffer_mut().provide().expect("the first frame made it");
    assert_eq!(first.timecode, 0);
}

#[test]
fn process_at_takes_a_window_of_the_input() {
    let mut chain = terminal_filter();
    let mut samples = vec![0i32; 4000];
    samples[1000] = 258;
    assert!(chain.process_at(&samples, 1000, 1920).is_ok());
    let frame = chain.buffer_mut().provide().expect("one frame from the window");
    assert_eq!(frame.data[0], 2);
    assert_eq!(frame.data[1], 1);
    assert!(chain.buffer_mut().provide().is_none());
}

#[test]
fn close_drops_the_accumulation() {
    let mut chain = terminal_filter();
    assert!(chain.process_all(&vec![5i32; 300]).is_ok());
    chain.close();
    chain.close(); // idempotent
    assert!(chain.flush().is_ok());
    assert!(chain.buffer_mut().provide().is_none(), "nothing pending after close");
}

#[test]
fn frames_carry_the_player_volume() {
    let fmt = stereo_48k();
    let buf = AbstractFrameBuf::new(400, fmt, false);
    let mut config = AudioConfig::default();
    config.output_fmt = fmt;
    let mut opts = AudioPlayerOpts::new();
    opts.volume = 55;
    let context = ProcessingContext::new(config, buf, opts, fmt);
    let mut chain = FinalPCMFilter::new(context);
    assert!(chain.process_all(&vec![0i32; 1920]).is_ok());
    assert_eq!(chain.buffer_mut().provide().expect("frame").volume, 55);
}
