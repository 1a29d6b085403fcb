//! Core logic of a terminal music player for OpenSubsonic servers:
//! playback-actor state machine, queue and cursor management, repeat and
//! scrobble policy, seekable byte source and frame-decode bookkeeping,
//! authentication tokens, and the media-control bridge's diffing logic.

pub mod action;
pub mod auth;
pub mod bridge;
pub mod config;
pub mod decoder;
pub mod models;
pub mod now_playing;
pub mod orchestrator;
pub mod player;
pub mod queue;
pub(crate) mod rng;
pub mod text;
pub mod volume;
