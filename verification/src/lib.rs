//! A round-based proof-of-work search: digests, nonce sampling, the worker's
//! guess-and-check step, the coordinator's round state machine and the
//! account that collects the rewards.

pub mod account;
pub mod digest;
pub mod round;
pub mod sampler;
pub mod text;
pub mod worker;
