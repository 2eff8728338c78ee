//! The one place where randomness enters: drawing a seed for a new field.

use vstd::prelude::*;
use rand::Rng;

verus! {

/// Draws 64 bits from `rand::thread_rng()` with `Rng::gen`. The value depends on
/// the state of the thread's generator, so nothing is claimed of it: every `u64`
/// may come back, and two calls may differ. The generator takes entropy from the
/// operating system at its first use on a thread and again whenever it reseeds,
/// and gives up if that source cannot be read, which no argument of this
/// library controls.
#[verifier::external_body]
pub(crate) fn random_seed() -> u64 {
    rand::thread_rng().gen()
}

} // verus!
