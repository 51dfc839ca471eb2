//! The epoch aggregator.

use crate::chain::{Block, BlockState};
use crate::epoch::{
    AccumulatingEpoch, AccumulatingEpochView, EpochInputState, InputContractAddressState,
};
use crate::error::{FoldStageError, FoldStageErrorView, SyncStageError, SyncStageErrorView};
use crate::fold::FoldListingInputs;
use crate::sync::SyncResolvingAddress;
use crate::upstream::{answers, ask, result_view, DerivedStateProvider};
use ethers::types::{Address, U256};
use vstd::prelude::*;

verus! {

/// Derives the accumulating epoch of a rollup contract from the input-list
/// derivation and the address resolver derivation.
///
/// The delegate holds a handle on each of the two for as long as it lives.
/// It never changes a handle, and between calls it keeps nothing. Where the
/// handles answer at once, [`Self::sync`] and [`Self::fold`] do the asking.
/// Where they do not, the owner of the delegate borrows the handles, does
/// the asking, and takes the derivation through the stages of
/// [`crate::sync`] and [`crate::fold`].
pub struct AccumulatingEpochFoldDelegate<InputFold, InputContractAddressFold> {
    input_fold: InputFold,
    input_contract_address_fold: InputContractAddressFold,
}

impl<InputFold, InputContractAddressFold> AccumulatingEpochFoldDelegate<
    InputFold,
    InputContractAddressFold,
> {
    /// The handle on the input-list derivation.
    pub closed spec fn spec_input_fold(&self) -> InputFold {
        self.input_fold
    }

    /// The handle on the address resolver derivation.
    pub closed spec fn spec_input_contract_address_fold(&self) -> InputContractAddressFold {
        self.input_contract_address_fold
    }

    /// A delegate that holds the two handles.
    pub fn new(
        input_fold: InputFold,
        input_contract_address_fold: InputContractAddressFold,
    ) -> (delegate: Self)
        ensures
            delegate.spec_input_fold() == input_fold,
            delegate.spec_input_contract_address_fold() == input_contract_address_fold,
    {
        Self { input_fold, input_contract_address_fold }
    }

    /// The handle on the input-list derivation.
    pub fn input_fold(&self) -> (handle: &InputFold)
        ensures
            *handle == self.spec_input_fold(),
    {
        &self.input_fold
    }

    /// The handle on the address resolver derivation.
    pub fn input_contract_address_fold(&self) -> (handle: &InputContractAddressFold)
        ensures
            *handle == self.spec_input_contract_address_fold(),
    {
        &self.input_contract_address_fold
    }

    /// The state to expose for an epoch and the block it was derived for:
    /// the same block and the same epoch.
    pub fn convert(
        &self,
        accumulator: &BlockState<AccumulatingEpoch>,
    ) -> (state: BlockState<AccumulatingEpoch>)
        ensures
            state@ == accumulator@,
    {
        BlockState { block: accumulator.block, state: accumulator.state.clone() }
    }
}

impl<InputFold, InputContractAddressFold> AccumulatingEpochFoldDelegate<
    InputFold,
    InputContractAddressFold,
> where
    InputFold: DerivedStateProvider<(Address, U256), EpochInputState>,
    InputContractAddressFold: DerivedStateProvider<Address, InputContractAddressState>,
{
    /// `outcome` is one that the `sync` for `initial_state` as of `block` may
    /// have: the address resolver derivation may give an answer to the query
    /// of the first stage that makes the `sync` fail with `outcome`, or that
    /// leads to a second stage to whose query the input-list derivation may
    /// give an answer that leads to `outcome`.
    pub open spec fn sync_may_yield(
        &self,
        initial_state: (Address, U256),
        block: Block,
        outcome: Result<AccumulatingEpochView, SyncStageErrorView>,
    ) -> bool {
        let first = SyncResolvingAddress::spec_start(initial_state, block);
        exists|resolved: Result<BlockState<InputContractAddressState>, String>|
            {
                &&& #[trigger] answers(
                    self.spec_input_contract_address_fold(),
                    first.spec_query(),
                    resolved,
                )
                &&& match first.spec_resume(result_view(resolved)) {
                    Err(error) => outcome == Err::<AccumulatingEpochView, SyncStageErrorView>(
                        error,
                    ),
                    Ok(second) => exists|listed: Result<BlockState<EpochInputState>, String>|
                        {
                            &&& #[trigger] answers(
                                self.spec_input_fold(),
                                second.spec_query(),
                                listed,
                            )
                            &&& outcome == second.spec_resume(result_view(listed))
                        },
                }
            }
    }

    /// Derives from scratch the epoch `initial_state.1` of the rollup
    /// contract `initial_state.0`, as of `block`.
    ///
    /// Asks the address resolver derivation for the input contract, then the
    /// input-list derivation for the inputs of the epoch under that input
    /// contract, both at the hash of `block`. The second is asked only after
    /// the first has answered with an input contract.
    pub fn sync(
        &self,
        initial_state: &(Address, U256),
        block: &Block,
    ) -> (epoch: Result<AccumulatingEpoch, SyncStageError>)
        ensures
            self.sync_may_yield(*initial_state, *block, result_view(epoch)),
            epoch matches Ok(found) ==> found.descartesv2_contract_address == initial_state.0,
            epoch matches Ok(found) ==> found.epoch_number == initial_state.1,
    {
        let first = SyncResolvingAddress::start(initial_state, block);
        let resolved = ask(&self.input_contract_address_fold, &first.query());
        let ghost resolved_answer = resolved;
        match first.resume(resolved) {
            Err(error) => {
                assert(answers(
                    self.spec_input_contract_address_fold(),
                    first.spec_query(),
                    resolved_answer,
                ));
                Err(error)
            },
            Ok(second) => {
                let listed = ask(&self.input_fold, &second.query());
                let ghost listed_answer = listed;
                let epoch = second.resume(listed);
                assert(answers(self.spec_input_fold(), second.spec_query(), listed_answer));
                assert(answers(
                    self.spec_input_contract_address_fold(),
                    first.spec_query(),
                    resolved_answer,
                ));
                epoch
            },
        }
    }

    /// `outcome` is one that the `fold` of `previous_state` to `block` may
    /// have: the input-list derivation may give an answer to the query of
    /// the stage that leads to `outcome`.
    pub open spec fn fold_may_yield(
        &self,
        previous_state: AccumulatingEpochView,
        block: Block,
        outcome: Result<AccumulatingEpochView, FoldStageErrorView>,
    ) -> bool {
        let stage = FoldListingInputs::spec_start(previous_state, block);
        exists|listed: Result<BlockState<EpochInputState>, String>|
            {
                &&& #[trigger] answers(self.spec_input_fold(), stage.spec_query(), listed)
                &&& outcome == stage.spec_resume(result_view(listed))
            }
    }

    /// Derives the epoch as of `block` from its previous value.
    ///
    /// Keeps the epoch number, the rollup contract and the input contract of
    /// `previous_state`, and asks the input-list derivation for the inputs at
    /// the hash of `block`. The address resolver derivation is not asked.
    pub fn fold(
        &self,
        previous_state: &AccumulatingEpoch,
        block: &Block,
    ) -> (epoch: Result<AccumulatingEpoch, FoldStageError>)
        ensures
            self.fold_may_yield(previous_state@, *block, result_view(epoch)),
            epoch matches Ok(next) ==> next.epoch_number == previous_state.epoch_number,
            epoch matches Ok(next) ==> next.descartesv2_contract_address
                == previous_state.descartesv2_contract_address,
            epoch matches Ok(next) ==> next.input_contract_address
                == previous_state.input_contract_address,
    {
        let stage = FoldListingInputs::start(previous_state, block);
        let listed = ask(&self.input_fold, &stage.query());
        let ghost listed_answer = listed;
        let epoch = stage.resume(listed);
        assert(answers(self.spec_input_fold(), stage.spec_query(), listed_answer));
        epoch
    }
}

} // verus!
