//! A themed ambient-audio engine: sounds of a theme are scheduled, repeated,
//! looped and cross-faded by a cooperative controller that talks to an audio
//! backend through two small traits.
//!
//! Gains, pitches, filter amounts and positions are fixed-point numbers, see
//! [`level`]. Durations are whole milliseconds.

pub mod audio_engine;
pub mod authorization;
pub mod config;
pub mod level;
pub mod samplesdb;
pub mod theme;
pub mod utils;
