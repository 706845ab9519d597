//! A small time-seeded random index helper, used by shuffle mode.

use vstd::prelude::*;

verus! {

/// Relies on `std::time::SystemTime::now`: the clock reading, converted to
/// whole nanoseconds since the Unix epoch (`duration_since` and `as_nanos`
/// only convert the reading; a clock before the epoch reads as zero). The
/// value depends on the moment of the call, so nothing is stated of it.
#[verifier::external_body]
fn now_nanos() -> u64 {
    match std::time::SystemTime::now().duration_since(std::time::UNIX_EPOCH) {
        Ok(d) => d.as_nanos() as u64,
        Err(_) => 0,
    }
}

/// The integer in `[min, max)` that a given seed selects: the seed reduced
/// into the range's width and offset from its start. The range must be
/// non-empty — an empty one has no width to reduce into.
pub fn random_from_seed(seed: u64, min: i32, max: i32) -> (r: i32)
    requires
        min < max,
    ensures
        r == min + seed % ((max - min) as u64),
        min <= r < max,
{
    let range: u64 = ((max as i64) - (min as i64)) as u64;
    let off: u64 = seed % range;
    let r: i64 = (min as i64) + (off as i64);
    r as i32
}

/// A pseudo-random integer in `[min, max)`, seeded from the clock.
pub fn random(min: i32, max: i32) -> (r: i32)
    requires
        min < max,
    ensures
        min <= r < max,
{
    random_from_seed(now_nanos(), min, max)
}

} // verus!
