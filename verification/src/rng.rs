//! Trusted wrappers around the process randomness the core draws on:
//! shop sampling, random ally targeting, god-choice shuffling and fresh
//! instance ids.  Verified code sees only what holds of every outcome.
use vstd::prelude::*;

use rand::seq::IteratorRandom;
use rand::seq::SliceRandom;

verus! {

/// Relies on rand's `SliceRandom::choose_multiple`: it draws
/// `min(count, pool)` distinct indices below `pool`, without repetition.
/// Which indices come back is random, so nothing more is stated.
#[verifier::external_body]
pub(crate) fn sample_indices(pool: usize, count: usize) -> (r: Vec<usize>)
    ensures
        r.len() == if count <= pool {
            count as int
        } else {
            pool as int
        },
        forall|k: int| 0 <= k < r@.len() ==> r@[k] < pool,
        forall|k1: int, k2: int|
            0 <= k1 < r@.len() && 0 <= k2 < r@.len() && k1 != k2 ==> r@[k1] != r@[k2],
{
    let all: Vec<usize> = (0..pool).collect();
    all.choose_multiple(&mut rand::thread_rng(), count).cloned().collect()
}

/// Relies on rand's `IteratorRandom::choose`: it returns `None` exactly on
/// an empty range and otherwise one uniformly random element of the range.
#[verifier::external_body]
pub(crate) fn pick_index(len: usize) -> (r: Option<usize>)
    ensures
        (r is Some) <==> len > 0,
        r matches Some(i) ==> i < len,
{
    (0..len).choose(&mut rand::thread_rng())
}

/// Relies on rand's `SliceRandom::shuffle`: it permutes the slice in
/// place, so the result holds each index below `n` exactly once.
#[verifier::external_body]
pub(crate) fn shuffled_indices(n: usize) -> (r: Vec<usize>)
    ensures
        r.len() == n,
        forall|k: int| 0 <= k < r@.len() ==> r@[k] < n,
        forall|k1: int, k2: int|
            0 <= k1 < r@.len() && 0 <= k2 < r@.len() && k1 != k2 ==> r@[k1] != r@[k2],
        forall|v: usize| v < n ==> r@.contains(v),
{
    let mut all: Vec<usize> = (0..n).collect();
    all.shuffle(&mut rand::thread_rng());
    all
}

/// Relies on uuid's `Uuid::new_v4`, read back as its 128-bit value.  The
/// id is random, so nothing is stated about it.
#[verifier::external_body]
pub(crate) fn fresh_id() -> u128 {
    uuid::Uuid::new_v4().as_u128()
}

} // verus!
