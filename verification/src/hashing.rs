//! Hashing of lattice points: an ordered fold of the point's coordinates into a
//! 32-bit key, and a seeded 64-bit hash of that key.

use vstd::prelude::*;
use vstd::bytes::{spec_u32_to_le_bytes, u32_to_le_bytes};
use std::hash::Hasher;
use twox_hash::XxHash64;

verus! {

/// The XXH64 digest of `bytes` under `seed`, as `twox_hash::XxHash64` computes it.
pub uninterp spec fn xxh64_digest(seed: u64, bytes: Seq<u8>) -> u64;

/// Feeds `bytes` in one piece to a fresh `twox_hash::XxHash64::with_seed(seed)`
/// through `Hasher::write` and returns what its `Hasher::finish` gives. The
/// state of a fresh hasher is fixed by the seed, and the hasher reads its input
/// as little-endian words on every machine, so the digest is a function of the
/// seed and the bytes alone. Nothing else is claimed of it.
#[verifier::external_body]
fn xxh64(seed: u64, bytes: &[u8]) -> (digest: u64)
    ensures
        digest == xxh64_digest(seed, bytes@),
{
    let mut hasher = XxHash64::with_seed(seed);
    hasher.write(bytes);
    hasher.finish()
}

/// The axis whose coordinate enters the fold at `step`, when the key for output
/// axis `axis` of a point in `dimensions` dimensions is built. The fold walks from
/// the last axis down to `axis`, then from the first axis up to `axis`, so that
/// `axis` is the turning point and is visited twice: `dimensions + 1` steps.
pub open spec fn fold_axis(dimensions: nat, axis: nat, step: nat) -> nat {
    if step < dimensions - axis {
        (dimensions - 1 - step) as nat
    } else {
        (step - (dimensions - axis)) as nat
    }
}

/// The fold after its first `steps` steps: each coordinate visited so far,
/// shifted left by the number of its step, all combined by exclusive or.
pub open spec fn fold_prefix(point: Seq<i64>, axis: nat, steps: nat) -> u64
    decreases steps,
{
    if steps == 0 {
        0
    } else {
        let step = (steps - 1) as nat;
        let coordinate = point[fold_axis(point.len(), axis, step) as int];
        fold_prefix(point, axis, step) ^ ((coordinate as u64) << (step as u64))
    }
}

/// The mixing key of `point` for output axis `axis`: the low 32 bits of the
/// complete fold.
pub open spec fn mixing_key(point: Seq<i64>, axis: nat) -> u32 {
    fold_prefix(point, axis, point.len() + 1) as u32
}

/// The hash of `point` for output axis `axis` under `seed`: the digest of the
/// mixing key's four bytes, least significant first.
pub open spec fn point_hash(seed: u64, point: Seq<i64>, axis: nat) -> u64 {
    xxh64_digest(seed, spec_u32_to_le_bytes(mixing_key(point, axis)))
}

/// Folds the coordinates of `point` into the mixing key for output axis `axis`.
/// The order of the coordinates matters: each enters at the shift of its step.
pub fn fold_key(point: &[i64], axis: usize) -> (key: u32)
    requires
        axis < point.len() < 64,
    ensures
        key == mixing_key(point@, axis as nat),
{
    let dimensions = point.len();
    let turn = dimensions - axis;
    let mut folded: u64 = 0;
    let mut step: usize = 0;
    while step <= dimensions
        invariant
            dimensions == point.len(),
            axis < dimensions < 64,
            turn == dimensions - axis,
            step <= dimensions + 1,
            folded == fold_prefix(point@, axis as nat, step as nat),
        decreases dimensions + 1 - step,
    {
        let visited = if step < turn {
            dimensions - 1 - step
        } else {
            step - turn
        };
        folded = folded ^ ((point[visited] as u64) << (step as u64));
        step += 1;
    }
    folded as u32
}

/// Hashes `point` for output axis `axis` under `seed`.
pub fn hash_point(seed: u64, point: &[i64], axis: usize) -> (hash: u64)
    requires
        axis < point.len() < 64,
    ensures
        hash == point_hash(seed, point@, axis as nat),
{
    let key = fold_key(point, axis);
    let bytes = u32_to_le_bytes(key);
    xxh64(seed, bytes.as_slice())
}

} // verus!
