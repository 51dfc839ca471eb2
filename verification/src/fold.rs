//! Derivation from the epoch's previous value.
//!
//! A `fold` keeps the identity of the epoch and the input contract that the
//! previous value names, and asks the input-list derivation for the inputs
//! as of the new block. The address resolver derivation is not asked again.

use crate::chain::{Block, BlockState};
use crate::epoch::{AccumulatingEpoch, AccumulatingEpochView, EpochInputState, EpochInputStateView};
use crate::error::{FoldStageError, FoldStageErrorView, Stage};
use crate::upstream::{result_view, Query};
use ethers::types::{Address, H256, U256};
use vstd::prelude::*;

verus! {

/// What `fold` makes of the input-list derivation's answer: the state that
/// it names, or a failure at that stage with the upstream description.
pub open spec fn spec_get_inputs_fold(
    answer: Result<BlockState<EpochInputStateView>, Seq<char>>,
) -> Result<EpochInputStateView, FoldStageErrorView> {
    match answer {
        Ok(listed) => Ok(listed.state),
        Err(cause) => Err(FoldStageErrorView { stage: Stage::InputList, cause }),
    }
}

/// What `fold` makes of the input-list derivation's answer.
pub fn get_inputs_fold(
    answer: Result<BlockState<EpochInputState>, String>,
) -> (inputs: Result<EpochInputState, FoldStageError>)
    ensures
        result_view(inputs) == spec_get_inputs_fold(result_view(answer)),
{
    match answer {
        Ok(listed) => Ok(listed.state),
        Err(cause) => Err(FoldStageError { stage: Stage::InputList, cause }),
    }
}

/// The one stage of a `fold`: all of the epoch but its inputs is known.
#[derive(Clone, Copy, Debug, PartialEq, Eq)]
pub struct FoldListingInputs {
    pub epoch_number: U256,
    pub descartesv2_contract_address: Address,
    pub input_contract_address: Address,
    pub block_hash: H256,
}

impl View for FoldListingInputs {
    type V = FoldListingInputs;

    open spec fn view(&self) -> FoldListingInputs {
        *self
    }
}

impl FoldListingInputs {
    /// The stage of the `fold` that advances `previous_state` to `block`. Of
    /// `previous_state` it keeps all but the inputs, of `block` the hash.
    pub open spec fn spec_start(previous_state: AccumulatingEpochView, block: Block) -> Self {
        FoldListingInputs {
            epoch_number: previous_state.epoch_number,
            descartesv2_contract_address: previous_state.descartesv2_contract_address,
            input_contract_address: previous_state.input_contract_address,
            block_hash: block.hash,
        }
    }

    /// The stage of the `fold` that advances `previous_state` to `block`.
    pub fn start(previous_state: &AccumulatingEpoch, block: &Block) -> (stage: Self)
        ensures
            stage == Self::spec_start(previous_state@, *block),
    {
        let epoch_number = previous_state.epoch_number.clone();
        let descartesv2_contract_address = previous_state.descartesv2_contract_address.clone();
        let input_contract_address = previous_state.input_contract_address.clone();
        FoldListingInputs {
            epoch_number,
            descartesv2_contract_address,
            input_contract_address,
            block_hash: block.hash,
        }
    }

    /// What this stage asks the input-list derivation: the inputs of the
    /// epoch under the input contract of the previous value, as of the new
    /// block.
    pub open spec fn spec_query(self) -> Query<(Address, U256)> {
        Query::spec_pinned((self.input_contract_address, self.epoch_number), self.block_hash)
    }

    /// What this stage asks the input-list derivation.
    pub fn query(&self) -> (query: Query<(Address, U256)>)
        ensures
            query == self.spec_query(),
    {
        Query::pinned((self.input_contract_address, self.epoch_number), self.block_hash)
    }

    /// Where the input-list derivation's answer leads: to the epoch, with
    /// the state that the answer names as its inputs and all else as before,
    /// or to the failure of the `fold`.
    pub open spec fn spec_resume(
        self,
        answer: Result<BlockState<EpochInputStateView>, Seq<char>>,
    ) -> Result<AccumulatingEpochView, FoldStageErrorView> {
        match spec_get_inputs_fold(answer) {
            Ok(inputs) => Ok(
                AccumulatingEpochView {
                    epoch_number: self.epoch_number,
                    inputs,
                    descartesv2_contract_address: self.descartesv2_contract_address,
                    input_contract_address: self.input_contract_address,
                },
            ),
            Err(error) => Err(error),
        }
    }

    /// Takes the input-list derivation's answer to [`Self::query`].
    pub fn resume(
        self,
        answer: Result<BlockState<EpochInputState>, String>,
    ) -> (epoch: Result<AccumulatingEpoch, FoldStageError>)
        ensures
            result_view(epoch) == self.spec_resume(result_view(answer)),
            epoch matches Ok(next) ==> next.epoch_number == self.epoch_number,
            epoch matches Ok(next) ==> next.descartesv2_contract_address
                == self.descartesv2_contract_address,
            epoch matches Ok(next) ==> next.input_contract_address == self.input_contract_address,
    {
        match get_inputs_fold(answer) {
            Ok(inputs) => Ok(
                AccumulatingEpoch {
                    epoch_number: self.epoch_number,
                    inputs,
                    descartesv2_contract_address: self.descartesv2_contract_address,
                    input_contract_address: self.input_contract_address,
                },
            ),
            Err(error) => Err(error),
        }
    }
}

} // verus!
