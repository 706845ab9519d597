//! Core of a terminal music player: a verified model of its streaming
//! playback pipeline.
//!
//! The pipeline streams compressed audio from a remote HTTP source, decodes
//! it incrementally and feeds synchronized samples to an output device while
//! supporting mid-stream seek, stop-with-fade and position reporting. The
//! pieces that live here are the ones with real coordination logic:
//!
//! * [`streamer`] — the network-backed, randomly addressable byte source
//!   (ring-buffered prefetcher) and its range-request planning;
//! * [`decode`] — the decode session: per-packet control handling, coarse
//!   seeks, the fade-out ramp on stop, and the completion protocol that
//!   distinguishes an explicit stop from a natural end of track;
//! * [`progress`] — the current-position / total-duration snapshot cell;
//! * [`bridge`] — a model of the output device bridge: the queued samples,
//!   the playing flag, volume and end-of-track detection;
//! * [`controller`] — the playback controller state machine that keeps at
//!   most one decode session feeding the bridge at a time;
//! * [`widgets`] — the data carried by the player widgets and the pure
//!   computations behind their rendering (gauge ratios, duration labels);
//! * [`events`] — the control-signal and command vocabulary;
//! * [`track`] — the per-track reference data;
//! * [`utils`] — a small time-seeded random index helper.
//!
//! Device output, terminal drawing and the HTTP calls themselves are left to
//! the surrounding application; this crate states and verifies the decisions
//! those loops make.

pub mod bridge;
pub mod controller;
pub mod decode;
pub mod errors;
pub mod events;
pub mod progress;
pub mod streamer;
pub mod track;
pub mod utils;
pub mod widgets;
