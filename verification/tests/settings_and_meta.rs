use jukebox::config::Settings;
use jukebox::fmt::AudioDataFmt;
use jukebox::player::{AudioConfig, AudioPlayerOpts, ResamplingQuality, OPUS_QUALITY_MAX};
use jukebox::track::{Marker, TrackEndReason, TrackInfo};

#[test]
fn settings_baseline_matches_the_shipped_defaults() {
    let settings = Settings::new();
    assert_eq!(settings.server.port, 2333);
    assert_eq!(settings.server.address, "0.0.0.0");
    assert_eq!(
        settings.lavalink.server.password.as_deref(),
        Some("youshallnotpass")
    );
    assert!(settings.lavalink.server.sources.youtube);
    assert!(settings.lavalink.server.sources.bandcamp);
    assert!(settings.lavalink.server.sources.soundcloud);
    assert!(settings.lavalink.server.sources.twitch);
    assert!(settings.lavalink.server.sources.vimeo);
    assert!(settings.lavalink.server.sources.http);
    assert!(!settings.lavalink.server.sources.local);
    assert_eq!(settings.lavalink.server.buffer_duration_ms, 400);
    assert_eq!(settings.lavalink.server.youtube_playlist_load_limit, 6);
    assert_eq!(settings.lavalink.server.player_update_interval, 5);
    assert!(settings.lavalink.server.youtube_search_enabled);
    assert!(settings.lavalink.server.soundcloud_search_enabled);
    assert!(settings.lavalink.server.ratelimit.ip_blocks.is_none());
    assert!(settings.lavalink.server.ratelimit.excluded_ips.is_none());
    assert_eq!(settings.lavalink.server.ratelimit.strategy, "RotateOnBan");
    assert!(settings.lavalink.server.ratelimit.search_triggers_fail);
    assert_eq!(settings.lavalink.server.ratelimit.retry_limit, -1);
    assert!(settings.logging.path.is_none());
    assert_eq!(settings.logging.level.root, "INFO");
    assert_eq!(settings.logging.level.lavalink, "INFO");
}

#[test]
fn audio_format_derives_its_quantities() {
    let fmt = AudioDataFmt::new(2, 48000, 960);
    assert_eq!(fmt.channel_count, 2);
    assert_eq!(fmt.sample_rate, 48000);
    assert_eq!(fmt.chunk_sample_count, 960);
    assert_eq!(fmt.frame_sample_count(), 1920);
    assert_eq!(fmt.frame_duration(), 20);
    let mono = AudioDataFmt::new(1, 44100, 441);
    assert_eq!(mono.frame_sample_count(), 441);
    assert_eq!(mono.frame_duration(), 10);
}

#[test]
fn audio_format_equality_is_by_value() {
    let a = AudioDataFmt::new(2, 48000, 960);
    let b = AudioDataFmt::new(2, 48000, 960);
    let c = AudioDataFmt::new(1, 48000, 960);
    assert_eq!(a, b);
    assert_ne!(a, c);
}

#[test]
fn audio_config_defaults_are_conservative() {
    let config = AudioConfig::default();
    assert!(matches!(config.resample_quality, ResamplingQuality::LOW));
    assert_eq!(config.opus_quality, OPUS_QUALITY_MAX);
    assert_eq!(config.output_fmt, AudioDataFmt::new(0, 0, 0));
    assert!(!config.hotswap);
    assert!(config.buf_duration.is_none());
}

#[test]
fn player_opts_start_at_full_volume() {
    let opts = AudioPlayerOpts::new();
    assert_eq!(opts.volume, 100);
    assert!(opts.buf_duration.is_none());
}

#[test]
fn only_finished_and_load_failed_start_the_next_track() {
    assert!(TrackEndReason::Finished.can_start_next());
    assert!(TrackEndReason::LoadFailed.can_start_next());
    assert!(!TrackEndReason::Stopped.can_start_next());
    assert!(!TrackEndReason::Replaced.can_start_next());
    assert!(!TrackEndReason::Cleanup.can_start_next());
}

#[test]
fn track_info_keeps_its_fields() {
    let info = TrackInfo::new(
        "Siren Song".to_owned(),
        "The Lighthouse".to_owned(),
        Some(215000),
        "abc123".to_owned(),
        false,
        "https://tracks.example/abc123".to_owned(),
    );
    assert_eq!(info.title, "Siren Song");
    assert_eq!(info.author, "The Lighthouse");
    assert_eq!(info.length, Some(215000));
    assert_eq!(info.id, "abc123");
    assert!(!info.is_stream);
    assert_eq!(info.uri, "https://tracks.example/abc123");
}

#[test]
fn marker_keeps_timecode_and_handler() {
    let marker = Marker::new(42000, 9);
    assert_eq!(marker.timecode, 42000);
    assert_eq!(marker.handler, 9);
}
