//! Drawing values from the ranges of a sound.

use rand::Rng;
use vstd::prelude::*;

use crate::audio_engine::engine::model::{drawn_from_u32, drawn_from_u64};

verus! {

/// Calls `rand::Rng::gen_range` on the generator of the current thread
/// (`rand::thread_rng`). The outcome is random; it lies between `low`
/// (included) and `high` (excluded). `gen_range` panics unless `low < high`.
/// The generator itself gives up only when the system has no entropy.
#[verifier::external_body]
fn gen_range(low: u64, high: u64) -> (value: u64)
    requires
        low < high,
    ensures
        low <= value < high,
{
    rand::thread_rng().gen_range(low, high)
}

/// Draws a value from the inclusive range `val`.
///
/// A range that is a single point yields that point, without touching the
/// random number generator. Any other range yields a value from the lower
/// bound up to, but not including, the upper bound.
pub fn get_random_value(val: (u64, u64)) -> (value: u64)
    requires
        val.0 <= val.1,
    ensures
        drawn_from_u64(val, value),
{
    if val.0 == val.1 {
        val.0
    } else {
        gen_range(val.0, val.1)
    }
}

/// Draws a level or a count from the inclusive range `val`, as
/// [`get_random_value`] does.
pub fn get_random_level(val: (u32, u32)) -> (value: u32)
    requires
        val.0 <= val.1,
    ensures
        drawn_from_u32(val, value),
{
    let wide: u64 = get_random_value((val.0 as u64, val.1 as u64));
    wide as u32
}

} // verus!
