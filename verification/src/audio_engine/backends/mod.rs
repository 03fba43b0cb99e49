//! Audio backends.

pub mod alto;
pub mod base;
pub mod error;
