//! Scrobbling logic for an mpv ListenBrainz plugin: when a played track
//! counts as a listen, when that listen becomes final, how it is encoded for
//! the submission endpoint, and how listens that could not be delivered are
//! cached and reconciled later.
//!
//! - `scrobbler`: the state machine that events drive.
//! - `deadline`: listen thresholds and the single deadline timer.
//! - `metadata`, `recording`: what a track's tags say, and eligibility.
//! - `listen`, `wire`: the listen and its JSON encoding.
//! - `delivery`, `cache`: sending a listen, and caching it when that fails.

pub mod deadline;
pub mod listen;
pub mod wire;
pub mod metadata;
pub mod recording;
pub mod delivery;
pub mod cache;
pub mod scrobbler;
