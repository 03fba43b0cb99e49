//! The scheduling engine, the backends it drives and the loaders that feed
//! them.

pub mod backends;
pub mod engine;
pub mod loader;
pub mod messages;
