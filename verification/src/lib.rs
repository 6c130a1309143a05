//! Playback core of an audio-streaming backend: a bounded, timing-aware
//! frame buffer between a decode/filter producer and a delivery consumer,
//! a PCM filter chain that re-chunks samples into fixed-duration frames
//! with accurate timecodes, and a track executor state machine that owns
//! a track's lifecycle, seeks, markers and position reporting.

pub mod config;
pub mod err;
pub mod executor;
pub mod filter;
pub mod fmt;
pub mod playback;
pub mod player;
pub mod track;
