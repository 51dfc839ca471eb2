//! The interface of an upstream derivation, as the aggregator consumes it.

use crate::chain::BlockState;
use ethers::types::H256;
use vstd::prelude::*;

verus! {

/// What an upstream derivation is asked: the state of `key`, as of the block
/// with hash `block_hash`, or as of the latest block where that is `None`.
#[derive(Debug, PartialEq, Eq)]
pub struct Query<K> {
    pub key: K,
    pub block_hash: Option<H256>,
}

impl<K: Copy> Copy for Query<K> {

}

impl<K: Copy> Clone for Query<K> {
    fn clone(&self) -> (copy: Self)
        ensures
            copy == *self,
    {
        *self
    }
}

impl<K> Query<K> {
    /// The query for `key` pinned to the block with hash `block_hash`.
    pub open spec fn spec_pinned(key: K, block_hash: H256) -> Query<K> {
        Query { key, block_hash: Some(block_hash) }
    }

    /// The query for `key` pinned to the block with hash `block_hash`.
    pub fn pinned(key: K, block_hash: H256) -> (query: Query<K>)
        ensures
            query == Self::spec_pinned(key, block_hash),
    {
        Query { key, block_hash: Some(block_hash) }
    }
}

/// A derivation that answers at once: for a key and a pin, the state of the
/// key with the block it was computed for, or the description of why there
/// is none. Nothing is assumed of what an implementation answers.
pub trait DerivedStateProvider<K, V> {
    /// The state of `key` as of the block with hash `block_hash`, or as of
    /// the latest block where that is `None`.
    fn get_state_for_block(
        &self,
        key: &K,
        block_hash: Option<H256>,
    ) -> Result<BlockState<V>, String>;
}

/// `answer` is one that `provider` may give to `query`.
pub open spec fn answers<K, V, P: DerivedStateProvider<K, V>>(
    provider: P,
    query: Query<K>,
    answer: Result<BlockState<V>, String>,
) -> bool {
    call_ensures(P::get_state_for_block, (&provider, &query.key, query.block_hash), answer)
}

/// Puts `query` to `provider`.
pub fn ask<K, V, P: DerivedStateProvider<K, V>>(
    provider: &P,
    query: &Query<K>,
) -> (answer: Result<BlockState<V>, String>)
    ensures
        answers(*provider, *query, answer),
{
    provider.get_state_for_block(&query.key, query.block_hash)
}

/// The view of an upstream answer, or of an outcome: that of the value where
/// there is one, that of the error where there is none.
pub open spec fn result_view<T: View, E: View>(result: Result<T, E>) -> Result<T::V, E::V> {
    match result {
        Ok(value) => Ok(value@),
        Err(error) => Err(error@),
    }
}

/// An outcome with its error as a mathematical value and its value as it is.
pub open spec fn error_view<T, E: View>(result: Result<T, E>) -> Result<T, E::V> {
    match result {
        Ok(value) => Ok(value),
        Err(error) => Err(error@),
    }
}

} // verus!
