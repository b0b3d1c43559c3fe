//! One iteration of a search worker: look at the stop signal, draw a
//! candidate, compare it with the round's target.

use crate::sampler::{get_nonce_hash_with_nonce, nonce_digest};
use vstd::prelude::*;

verus! {

/// The winning nonce of a round.
#[derive(Clone, Copy, Debug, PartialEq, Eq, Structural)]
pub struct MineResult {
    pub nonce: u64,
}

/// What a worker does after one iteration of its loop.
#[derive(Clone, Copy, Debug, PartialEq, Eq, Structural)]
pub enum WorkerStep {
    /// The stop signal was set: leave the loop without a result.
    Halted,
    /// The candidate matched: send the result, then leave the loop.
    Found(MineResult),
    /// The candidate did not match: go round again.
    Retry,
}

/// The outcome of comparing a candidate with the target: a match reports
/// the candidate's nonce, anything else asks for another guess.
pub open spec fn outcome(candidate_digest: Seq<char>, candidate_nonce: u64, target: Seq<char>)
    -> WorkerStep {
    if candidate_digest == target {
        WorkerStep::Found(MineResult { nonce: candidate_nonce })
    } else {
        WorkerStep::Retry
    }
}

/// Whether a step ends the worker's loop.
pub open spec fn leaves_loop(step: WorkerStep) -> bool {
    step != WorkerStep::Retry
}

impl WorkerStep {
    /// Whether this step ends the worker's loop.
    pub fn is_final(&self) -> (b: bool)
        ensures
            b == leaves_loop(*self),
    {
        match self {
            WorkerStep::Retry => false,
            _ => true,
        }
    }
}

/// Compares a candidate with the target.
pub fn check_candidate(candidate_digest: &String, candidate_nonce: u64, target: &String) -> (step:
    WorkerStep)
    ensures
        step == outcome(candidate_digest@, candidate_nonce, target@),
{
    if *candidate_digest == *target {
        WorkerStep::Found(MineResult { nonce: candidate_nonce })
    } else {
        WorkerStep::Retry
    }
}

/// One iteration of a worker. With the stop signal set the worker halts
/// at once, without drawing. Otherwise it draws one candidate from
/// `0..=difficulty` and the step is the outcome of comparing that
/// candidate with the target.
pub fn worker_step(stop_signal: bool, difficulty: u64, target: &String) -> (step: WorkerStep)
    ensures
        stop_signal ==> step == WorkerStep::Halted,
        !stop_signal ==> exists|nonce: u64|
            nonce <= difficulty && step == #[trigger] outcome(nonce_digest(nonce), nonce, target@),
        step matches WorkerStep::Found(found) ==> found.nonce <= difficulty && nonce_digest(
            found.nonce,
        ) == target@,
{
    if stop_signal {
        return WorkerStep::Halted;
    }
    let (candidate_digest, candidate_nonce) = get_nonce_hash_with_nonce(difficulty);
    let step = check_candidate(&candidate_digest, candidate_nonce, target);
    assert(step == outcome(nonce_digest(candidate_nonce), candidate_nonce, target@));
    step
}

} // verus!
