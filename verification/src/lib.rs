//! Core of a stochastic agent-based epidemic simulator: the per-individual
//! infection state machine, the probabilistic transition rules, and the
//! day-stepping protocol that advances a whole population synchronously.
//!
//! Randomness is injectable: every probabilistic choice consumes a uniform
//! draw from a [`random::DrawSource`], which either replays a caller-supplied
//! list of draws (making every result a proved function of state and draws)
//! or pulls from the thread-local generator of the `rand` crate.
use vstd::prelude::*;

pub mod config;
pub mod laws;
pub mod person;
pub mod population;
pub mod random;
pub mod rules;
pub mod sim;
pub mod status;
pub mod stepper;

verus! {

/// Builds the list `[0, 1, ..., n - 1]`.
pub fn generate_list(n: usize) -> (r: Vec<i32>)
    requires
        n <= i32::MAX,
    ensures
        r@.len() == n,
        forall|i: int| 0 <= i < n ==> r@[i] == i,
{
    let mut r: Vec<i32> = Vec::new();
    let mut k: usize = 0;
    while k < n
        invariant
            k <= n <= i32::MAX,
            r@.len() == k,
            forall|i: int| 0 <= i < k ==> r@[i] == i,
        decreases n - k,
    {
        r.push(k as i32);
        k = k + 1;
    }
    r
}

} // verus!
