//! What `sync` and `fold` come to, as mathematics.
//!
//! The upstream derivations are modelled by what they answer. Against one
//! such model the outcome of a derivation is a function of its arguments,
//! and the stages of [`crate::sync`] and [`crate::fold`], run in order with
//! each query answered as the model answers it, compute that function. So
//! does the delegate, where its handles answer as the model does.

use crate::chain::{Block, BlockState};
use crate::delegate::AccumulatingEpochFoldDelegate;
use crate::epoch::{
    AccumulatingEpochView, EpochInputState, EpochInputStateView, InputContractAddressState,
};
use crate::error::{FoldStageErrorView, Stage, SyncStageErrorView};
use crate::fold::FoldListingInputs;
use crate::sync::SyncResolvingAddress;
use crate::upstream::{answers, result_view, DerivedStateProvider, Query};
use ethers::types::{Address, U256};
use vstd::prelude::*;

verus! {

/// The state of the chain as the aggregator meets it: what each of the two
/// upstream derivations answers to each query. An answer is a state with the
/// block it was computed for, or the description of a failure.
pub struct ChainState {
    /// The address resolver derivation: from a rollup contract to its input
    /// contract.
    pub input_contract_address: spec_fn(Query<Address>) -> Result<
        BlockState<InputContractAddressState>,
        Seq<char>,
    >,
    /// The input-list derivation: from an input contract and an epoch to the
    /// inputs of that epoch.
    pub inputs: spec_fn(Query<(Address, U256)>) -> Result<
        BlockState<EpochInputStateView>,
        Seq<char>,
    >,
}

impl ChainState {
    /// What the address resolver derivation answers for
    /// `descartesv2_contract_address` at the hash of `block`.
    pub open spec fn resolved(
        self,
        descartesv2_contract_address: Address,
        block: Block,
    ) -> Result<BlockState<InputContractAddressState>, Seq<char>> {
        (self.input_contract_address)(Query::spec_pinned(descartesv2_contract_address, block.hash))
    }

    /// What the input-list derivation answers for the epoch `epoch_number`
    /// under `input_contract_address` at the hash of `block`.
    pub open spec fn listed(
        self,
        input_contract_address: Address,
        epoch_number: U256,
        block: Block,
    ) -> Result<BlockState<EpochInputStateView>, Seq<char>> {
        (self.inputs)(Query::spec_pinned((input_contract_address, epoch_number), block.hash))
    }

    /// The input contract of `descartesv2_contract_address` as of `block`,
    /// where the address resolver derivation answers with one.
    pub open spec fn input_contract(
        self,
        descartesv2_contract_address: Address,
        block: Block,
    ) -> Option<Address> {
        match self.resolved(descartesv2_contract_address, block) {
            Ok(resolved) => Some(resolved.state.input_contract_address),
            Err(_) => None,
        }
    }

    /// The inputs of the epoch `epoch_number` under `input_contract_address`
    /// as of `block`, where the input-list derivation answers with them.
    pub open spec fn inputs_of(
        self,
        input_contract_address: Address,
        epoch_number: U256,
        block: Block,
    ) -> Option<EpochInputStateView> {
        match self.listed(input_contract_address, epoch_number, block) {
            Ok(listed) => Some(listed.state),
            Err(_) => None,
        }
    }
}

/// The outcome of the `sync` for `initial_state` as of `block`.
///
/// The input contract is what the address resolver derivation answers for
/// the rollup contract at the hash of `block`. The inputs are what the
/// input-list derivation answers for that input contract and the epoch at
/// the same hash. A failure of either is the failure of the `sync`, at that
/// stage and with that description.
pub open spec fn sync_outcome(
    chain: ChainState,
    initial_state: (Address, U256),
    block: Block,
) -> Result<AccumulatingEpochView, SyncStageErrorView> {
    let (descartesv2_contract_address, epoch_number) = initial_state;
    match chain.resolved(descartesv2_contract_address, block) {
        Err(cause) => Err(SyncStageErrorView { stage: Stage::AddressResolution, cause }),
        Ok(resolved) => {
            let input_contract_address = resolved.state.input_contract_address;
            match chain.listed(input_contract_address, epoch_number, block) {
                Err(cause) => Err(SyncStageErrorView { stage: Stage::InputList, cause }),
                Ok(listed) => Ok(
                    AccumulatingEpochView {
                        epoch_number,
                        inputs: listed.state,
                        descartesv2_contract_address,
                        input_contract_address,
                    },
                ),
            }
        },
    }
}

/// The outcome of the `fold` that advances `previous_state` to `block`.
///
/// All but the inputs is as in `previous_state`. The inputs are what the
/// input-list derivation answers for the input contract and the epoch of
/// `previous_state` at the hash of `block`. Its failure is the failure of
/// the `fold`.
pub open spec fn fold_outcome(
    chain: ChainState,
    previous_state: AccumulatingEpochView,
    block: Block,
) -> Result<AccumulatingEpochView, FoldStageErrorView> {
    match chain.listed(previous_state.input_contract_address, previous_state.epoch_number, block) {
        Err(cause) => Err(FoldStageErrorView { stage: Stage::InputList, cause }),
        Ok(listed) => Ok(
            AccumulatingEpochView {
                epoch_number: previous_state.epoch_number,
                inputs: listed.state,
                descartesv2_contract_address: previous_state.descartesv2_contract_address,
                input_contract_address: previous_state.input_contract_address,
            },
        ),
    }
}

/// The epoch after a `sync` as of the first of `blocks` and a `fold` to each
/// block after it, in order. There is none where `blocks` is empty or one of
/// the derivations fails.
pub open spec fn fold_path(
    chain: ChainState,
    initial_state: (Address, U256),
    blocks: Seq<Block>,
) -> Option<AccumulatingEpochView>
    decreases blocks.len(),
{
    if blocks.len() == 0 {
        None
    } else if blocks.len() == 1 {
        match sync_outcome(chain, initial_state, blocks[0]) {
            Ok(epoch) => Some(epoch),
            Err(_) => None,
        }
    } else {
        match fold_path(chain, initial_state, blocks.drop_last()) {
            Some(previous_state) => match fold_outcome(chain, previous_state, blocks.last()) {
                Ok(epoch) => Some(epoch),
                Err(_) => None,
            },
            None => None,
        }
    }
}

/// The stages of a `sync`, run in order, each query answered by `chain`.
pub open spec fn sync_run(
    chain: ChainState,
    initial_state: (Address, U256),
    block: Block,
) -> Result<AccumulatingEpochView, SyncStageErrorView> {
    let first = SyncResolvingAddress::spec_start(initial_state, block);
    match first.spec_resume((chain.input_contract_address)(first.spec_query())) {
        Ok(second) => second.spec_resume((chain.inputs)(second.spec_query())),
        Err(error) => Err(error),
    }
}

/// The stage of a `fold`, its query answered by `chain`.
pub open spec fn fold_run(
    chain: ChainState,
    previous_state: AccumulatingEpochView,
    block: Block,
) -> Result<AccumulatingEpochView, FoldStageErrorView> {
    let stage = FoldListingInputs::spec_start(previous_state, block);
    stage.spec_resume((chain.inputs)(stage.spec_query()))
}

/// The handles of `delegate` answer as `chain` does: whatever one of them may
/// answer to a query is, as a mathematical value, what `chain` holds for that
/// query.
pub open spec fn answers_as<InputFold, InputContractAddressFold>(
    delegate: AccumulatingEpochFoldDelegate<InputFold, InputContractAddressFold>,
    chain: ChainState,
) -> bool where
    InputFold: DerivedStateProvider<(Address, U256), EpochInputState>,
    InputContractAddressFold: DerivedStateProvider<Address, InputContractAddressState>,
{
    &&& forall|
        query: Query<Address>,
        answer: Result<BlockState<InputContractAddressState>, String>,
    |
        #[trigger] answers(delegate.spec_input_contract_address_fold(), query, answer)
            ==> result_view(answer) == (chain.input_contract_address)(query)
    &&& forall|query: Query<(Address, U256)>, answer: Result<BlockState<EpochInputState>, String>|
        #[trigger] answers(delegate.spec_input_fold(), query, answer) ==> result_view(answer)
            == (chain.inputs)(query)
}

/// `epochs` are epochs that `delegate` may yield, one as of each of
/// `blocks`: the first by a `sync`, each other by a `fold` of the one before
/// it.
pub open spec fn path_may_yield<InputFold, InputContractAddressFold>(
    delegate: AccumulatingEpochFoldDelegate<InputFold, InputContractAddressFold>,
    initial_state: (Address, U256),
    blocks: Seq<Block>,
    epochs: Seq<AccumulatingEpochView>,
) -> bool where
    InputFold: DerivedStateProvider<(Address, U256), EpochInputState>,
    InputContractAddressFold: DerivedStateProvider<Address, InputContractAddressState>,
{
    &&& blocks.len() > 0
    &&& epochs.len() == blocks.len()
    &&& delegate.sync_may_yield(initial_state, blocks[0], Ok(epochs[0]))
    &&& forall|i: int|
        0 < i < blocks.len() ==> delegate.fold_may_yield(
            epochs[i - 1],
            blocks[i],
            Ok(#[trigger] epochs[i]),
        )
}

} // verus!
