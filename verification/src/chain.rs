//! Values of the chain-access layer: hashes, addresses, numbers and blocks.
//!
//! The aggregator never looks inside a hash, an address or a number. It
//! carries them, unchanged, from what it is given to what it asks and
//! returns.

use ethers::types::{Bloom, H256, U256, U64};
use vstd::prelude::*;

verus! {

/// `ethers::types::H160`, the twenty bytes of an address. Nothing is claimed
/// of what a value holds.
#[verifier::external_type_specification]
#[verifier::external_body]
pub struct ExH160(ethers::types::H160);

/// `ethers::types::H256`, the thirty-two bytes of a block hash. Nothing is
/// claimed of what a value holds.
#[verifier::external_type_specification]
#[verifier::external_body]
pub struct ExH256(ethers::types::H256);

/// `ethers::types::U256`, an unsigned number of 256 bits. Nothing is claimed
/// of what a value holds.
#[verifier::external_type_specification]
#[verifier::external_body]
pub struct ExU256(ethers::types::U256);

/// `ethers::types::U64`, an unsigned number of 64 bits. Nothing is claimed of
/// what a value holds.
#[verifier::external_type_specification]
#[verifier::external_body]
pub struct ExU64(ethers::types::U64);

/// `ethers::types::Bloom`, the 256 bytes of a block's log filter. Nothing is
/// claimed of what a value holds.
#[verifier::external_type_specification]
#[verifier::external_body]
pub struct ExBloom(ethers::types::Bloom);

/// `Clone::clone` of `ethers::types::H160`: the copy holds the bytes of the
/// value it was made from.
pub assume_specification[ <ethers::types::H160 as Clone>::clone ](
    value: &ethers::types::H160,
) -> (copy: ethers::types::H160)
    ensures
        copy == *value,
;

/// `Clone::clone` of `ethers::types::U256`: the copy is the number it was
/// made from.
pub assume_specification[ <ethers::types::U256 as Clone>::clone ](
    value: &ethers::types::U256,
) -> (copy: ethers::types::U256)
    ensures
        copy == *value,
;

/// A block as the chain-access layer reports it. Its `hash` is its identity:
/// a hash denotes one immutable point in history.
#[derive(Clone, Copy, Debug, PartialEq, Eq)]
pub struct Block {
    pub hash: H256,
    pub number: U64,
    pub parent_hash: H256,
    pub timestamp: U256,
    pub logs_bloom: Bloom,
}

/// A value together with the block it was computed for.
#[derive(Debug, PartialEq, Eq)]
pub struct BlockState<T> {
    pub block: Block,
    pub state: T,
}

impl<T: Clone> Clone for BlockState<T> {
    fn clone(&self) -> (copy: Self)
        ensures
            copy.block == self.block,
            cloned(self.state, copy.state),
    {
        BlockState { block: self.block, state: self.state.clone() }
    }
}

impl<T: View> View for BlockState<T> {
    type V = BlockState<T::V>;

    open spec fn view(&self) -> BlockState<T::V> {
        BlockState { block: self.block, state: self.state@ }
    }
}

} // verus!
