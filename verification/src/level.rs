//! Fixed-point levels.
//!
//! A [`Level`] counts thousandths: `1000` is a gain, pitch or position of
//! one. Every quantity of the engine that is a fraction is held this way, so
//! that the scheduling rules can be stated over whole numbers.

use vstd::prelude::*;

verus! {

/// A non-negative quantity in thousandths.
pub type Level = u32;

/// The level that stands for one.
pub const LEVEL_ONE: Level = 1000;

/// The amount by which the master volume moves per tick during a cross-fade.
pub const FADE_STEP: Level = 100;

} // verus!
