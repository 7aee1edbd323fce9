//! Uniform fixed-point samples for particle initialization.

use vstd::prelude::*;
use crate::particle::UNIT;

verus! {

/// Relies on rand::random: a `u32` drawn from the thread-local generator.
/// The value is random, so nothing is promised of it.
#[verifier::external_body]
fn random_u32() -> u32 {
    rand::random::<u32>()
}

/// A uniform fixed-point sample in [0, 1], in milli-units: whatever the
/// generator returned, the result lies in [0, UNIT].
pub fn rand01() -> (r: i32)
    ensures
        0 <= r <= UNIT,
{
    let raw: u32 = random_u32();
    let r: u32 = raw % ((UNIT as u32) + 1);
    r as i32
}

} // verus!
