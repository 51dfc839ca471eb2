//! Derivation from scratch, one upstream query at a time.
//!
//! A `sync` asks the address resolver derivation for the input contract of
//! the rollup contract, then asks the input-list derivation for the inputs of
//! the epoch under that input contract. Both queries are pinned to the hash
//! of the block the `sync` is for. The second query needs the answer to the
//! first, so the two are stages: each stage says what to ask and takes the
//! answer, and only the first stage leads to the second.

use crate::chain::{Block, BlockState};
use crate::epoch::{
    AccumulatingEpoch, AccumulatingEpochView, EpochInputState, EpochInputStateView,
    InputContractAddressState,
};
use crate::error::{Stage, SyncStageError, SyncStageErrorView};
use crate::upstream::{error_view, result_view, Query};
use ethers::types::{Address, H256, U256};
use vstd::prelude::*;

verus! {

/// What `sync` makes of the address resolver's answer: the input contract
/// that it names, or a failure at that stage with the upstream description.
pub open spec fn spec_get_input_contract_address_sync(
    answer: Result<BlockState<InputContractAddressState>, Seq<char>>,
) -> Result<Address, SyncStageErrorView> {
    match answer {
        Ok(resolved) => Ok(resolved.state.input_contract_address),
        Err(cause) => Err(SyncStageErrorView { stage: Stage::AddressResolution, cause }),
    }
}

/// What `sync` makes of the address resolver's answer.
pub fn get_input_contract_address_sync(
    answer: Result<BlockState<InputContractAddressState>, String>,
) -> (resolved: Result<Address, SyncStageError>)
    ensures
        error_view(resolved) == spec_get_input_contract_address_sync(result_view(answer)),
{
    match answer {
        Ok(resolved) => Ok(resolved.state.input_contract_address),
        Err(cause) => Err(SyncStageError { stage: Stage::AddressResolution, cause }),
    }
}

/// What `sync` makes of the input-list derivation's answer: the state that
/// it names, or a failure at that stage with the upstream description.
pub open spec fn spec_get_inputs_sync(
    answer: Result<BlockState<EpochInputStateView>, Seq<char>>,
) -> Result<EpochInputStateView, SyncStageErrorView> {
    match answer {
        Ok(listed) => Ok(listed.state),
        Err(cause) => Err(SyncStageErrorView { stage: Stage::InputList, cause }),
    }
}

/// What `sync` makes of the input-list derivation's answer.
pub fn get_inputs_sync(
    answer: Result<BlockState<EpochInputState>, String>,
) -> (inputs: Result<EpochInputState, SyncStageError>)
    ensures
        result_view(inputs) == spec_get_inputs_sync(result_view(answer)),
{
    match answer {
        Ok(listed) => Ok(listed.state),
        Err(cause) => Err(SyncStageError { stage: Stage::InputList, cause }),
    }
}

/// The first stage of a `sync`: the input contract is not known yet.
#[derive(Clone, Copy, Debug, PartialEq, Eq)]
pub struct SyncResolvingAddress {
    pub descartesv2_contract_address: Address,
    pub epoch_number: U256,
    pub block_hash: H256,
}

impl View for SyncResolvingAddress {
    type V = SyncResolvingAddress;

    open spec fn view(&self) -> SyncResolvingAddress {
        *self
    }
}

/// The second stage of a `sync`: the input contract is known, its inputs are
/// not.
#[derive(Clone, Copy, Debug, PartialEq, Eq)]
pub struct SyncListingInputs {
    pub descartesv2_contract_address: Address,
    pub epoch_number: U256,
    pub input_contract_address: Address,
    pub block_hash: H256,
}

impl View for SyncListingInputs {
    type V = SyncListingInputs;

    open spec fn view(&self) -> SyncListingInputs {
        *self
    }
}

impl SyncResolvingAddress {
    /// The first stage of the `sync` of the epoch `initial_state.1` of the
    /// rollup contract `initial_state.0`, as of `block`. Of `block` it keeps
    /// the hash and nothing else.
    pub open spec fn spec_start(initial_state: (Address, U256), block: Block) -> Self {
        SyncResolvingAddress {
            descartesv2_contract_address: initial_state.0,
            epoch_number: initial_state.1,
            block_hash: block.hash,
        }
    }

    /// The first stage of the `sync` for `initial_state` as of `block`.
    pub fn start(initial_state: &(Address, U256), block: &Block) -> (stage: Self)
        ensures
            stage == Self::spec_start(*initial_state, *block),
    {
        let (descartesv2_contract_address, epoch_number) = *initial_state;
        SyncResolvingAddress { descartesv2_contract_address, epoch_number, block_hash: block.hash }
    }

    /// What this stage asks the address resolver derivation: the state of
    /// the rollup contract, as of the block of the `sync`.
    pub open spec fn spec_query(self) -> Query<Address> {
        Query::spec_pinned(self.descartesv2_contract_address, self.block_hash)
    }

    /// What this stage asks the address resolver derivation.
    pub fn query(&self) -> (query: Query<Address>)
        ensures
            query == self.spec_query(),
    {
        Query::pinned(self.descartesv2_contract_address, self.block_hash)
    }

    /// Where the address resolver's answer leads: to the second stage, with
    /// the input contract that the answer names, or to the failure of the
    /// `sync`.
    pub open spec fn spec_resume(
        self,
        answer: Result<BlockState<InputContractAddressState>, Seq<char>>,
    ) -> Result<SyncListingInputs, SyncStageErrorView> {
        match spec_get_input_contract_address_sync(answer) {
            Ok(input_contract_address) => Ok(
                SyncListingInputs {
                    descartesv2_contract_address: self.descartesv2_contract_address,
                    epoch_number: self.epoch_number,
                    input_contract_address,
                    block_hash: self.block_hash,
                },
            ),
            Err(error) => Err(error),
        }
    }

    /// Takes the address resolver's answer to [`Self::query`].
    pub fn resume(
        self,
        answer: Result<BlockState<InputContractAddressState>, String>,
    ) -> (next: Result<SyncListingInputs, SyncStageError>)
        ensures
            result_view(next) == self.spec_resume(result_view(answer)),
    {
        match get_input_contract_address_sync(answer) {
            Ok(input_contract_address) => Ok(
                SyncListingInputs {
                    descartesv2_contract_address: self.descartesv2_contract_address,
                    epoch_number: self.epoch_number,
                    input_contract_address,
                    block_hash: self.block_hash,
                },
            ),
            Err(error) => Err(error),
        }
    }
}

impl SyncListingInputs {
    /// What this stage asks the input-list derivation: the inputs of the
    /// epoch under the resolved input contract, as of the block of the
    /// `sync`.
    pub open spec fn spec_query(self) -> Query<(Address, U256)> {
        Query::spec_pinned((self.input_contract_address, self.epoch_number), self.block_hash)
    }

    /// What this stage asks the input-list derivation.
    pub fn query(&self) -> (query: Query<(Address, U256)>)
        ensures
            query == self.spec_query(),
    {
        Query::pinned((self.input_contract_address, self.epoch_number), self.block_hash)
    }

    /// Where the input-list derivation's answer leads: to the epoch, with
    /// the state that the answer names as its inputs, or to the failure of
    /// the `sync`.
    pub open spec fn spec_resume(
        self,
        answer: Result<BlockState<EpochInputStateView>, Seq<char>>,
    ) -> Result<AccumulatingEpochView, SyncStageErrorView> {
        match spec_get_inputs_sync(answer) {
            Ok(inputs) => Ok(
                AccumulatingEpochView {
                    epoch_number: self.epoch_number,
                    inputs,
                    descartesv2_contract_address: self.descartesv2_contract_address,
                    input_contract_address: self.input_contract_address,
                },
            ),
            Err(error) => Err(error),
        }
    }

    /// Takes the input-list derivation's answer to [`Self::query`].
    pub fn resume(
        self,
        answer: Result<BlockState<EpochInputState>, String>,
    ) -> (epoch: Result<AccumulatingEpoch, SyncStageError>)
        ensures
            result_view(epoch) == self.spec_resume(result_view(answer)),
            epoch matches Ok(found) ==> found.descartesv2_contract_address
                == self.descartesv2_contract_address,
            epoch matches Ok(found) ==> found.epoch_number == self.epoch_number,
            epoch matches Ok(found) ==> found.input_contract_address
                == self.input_contract_address,
    {
        match get_inputs_sync(answer) {
            Ok(inputs) => Ok(
                AccumulatingEpoch {
                    inputs,
                    epoch_number: self.epoch_number,
                    descartesv2_contract_address: self.descartesv2_contract_address,
                    input_contract_address: self.input_contract_address,
                },
            ),
            Err(error) => Err(error),
        }
    }
}

} // verus!
