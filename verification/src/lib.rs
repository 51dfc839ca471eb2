//! Derivation of the accumulating epoch of a rollup contract.
//!
//! The epoch is assembled from what two upstream derivations answer: the
//! address resolver derivation, which names the input contract of a rollup
//! contract, and the input-list derivation, which lists the inputs of an
//! epoch under an input contract. It is derived from scratch (`sync`) or
//! from its previous value (`fold`), with every upstream query pinned to the
//! hash of the block the derivation is for.
//!
//! - [`chain`]: hashes, addresses, numbers, blocks.
//! - [`upstream`]: what an upstream derivation is asked and how it is reached.
//! - [`epoch`]: the epoch and the upstream states it is assembled from.
//! - [`error`]: the failures of `sync` and of `fold`.
//! - [`sync`], [`fold`]: the two derivations, stage by stage.
//! - [`delegate`]: the aggregator, which runs the stages against its handles.
//! - [`model`]: the outcome of a derivation against a given chain state.
//! - [`laws`]: idempotence, agreement of the two paths, stability of the
//!   epoch's identity, what a failure carries, what the inputs are.

pub mod chain;
pub mod delegate;
pub mod epoch;
pub mod error;
pub mod fold;
pub mod laws;
pub mod model;
pub mod sync;
pub mod upstream;
