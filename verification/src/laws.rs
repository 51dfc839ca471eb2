//! What holds of `sync` and `fold` whatever the upstream derivations answer.
//!
//! The laws come in two layers. Those that take a [`ChainState`] alone speak
//! of the outcomes of [`crate::model`]. Those that take a delegate as well
//! speak of what [`AccumulatingEpochFoldDelegate::sync`] and
//! [`AccumulatingEpochFoldDelegate::fold`] may yield where the delegate's
//! handles answer as the chain state does.

use crate::chain::Block;
use crate::delegate::AccumulatingEpochFoldDelegate;
use crate::epoch::{AccumulatingEpochView, EpochInputState, InputContractAddressState};
use crate::error::{FoldStageErrorView, Stage, SyncStageErrorView};
use crate::model::{
    answers_as, fold_outcome, fold_path, fold_run, path_may_yield, sync_outcome, sync_run,
    ChainState,
};
use crate::upstream::DerivedStateProvider;
use ethers::types::{Address, U256};
use vstd::prelude::*;

verus! {

/// The stages of a `sync`, run in order against `chain`, end in
/// [`sync_outcome`].
pub proof fn lemma_sync_run_is_outcome(
    chain: ChainState,
    initial_state: (Address, U256),
    block: Block,
)
    ensures
        sync_run(chain, initial_state, block) == sync_outcome(chain, initial_state, block),
{
}

/// The stage of a `fold`, run against `chain`, ends in [`fold_outcome`].
pub proof fn lemma_fold_run_is_outcome(
    chain: ChainState,
    previous_state: AccumulatingEpochView,
    block: Block,
)
    ensures
        fold_run(chain, previous_state, block) == fold_outcome(chain, previous_state, block),
{
}

/// Where the handles of `delegate` answer as `chain` does, a `sync` by
/// `delegate` has one outcome, that of [`sync_outcome`].
pub proof fn lemma_sync_answers_as_chain<InputFold, InputContractAddressFold>(
    delegate: AccumulatingEpochFoldDelegate<InputFold, InputContractAddressFold>,
    chain: ChainState,
    initial_state: (Address, U256),
    block: Block,
    outcome: Result<AccumulatingEpochView, SyncStageErrorView>,
) where
    InputFold: DerivedStateProvider<(Address, U256), EpochInputState>,
    InputContractAddressFold: DerivedStateProvider<Address, InputContractAddressState>,

    requires
        answers_as(delegate, chain),
        delegate.sync_may_yield(initial_state, block, outcome),
    ensures
        outcome == sync_outcome(chain, initial_state, block),
{
}

/// Where the handles of `delegate` answer as `chain` does, a `fold` by
/// `delegate` has one outcome, that of [`fold_outcome`].
pub proof fn lemma_fold_answers_as_chain<InputFold, InputContractAddressFold>(
    delegate: AccumulatingEpochFoldDelegate<InputFold, InputContractAddressFold>,
    chain: ChainState,
    previous_state: AccumulatingEpochView,
    block: Block,
    outcome: Result<AccumulatingEpochView, FoldStageErrorView>,
) where
    InputFold: DerivedStateProvider<(Address, U256), EpochInputState>,
    InputContractAddressFold: DerivedStateProvider<Address, InputContractAddressState>,

    requires
        answers_as(delegate, chain),
        delegate.fold_may_yield(previous_state, block, outcome),
    ensures
        outcome == fold_outcome(chain, previous_state, block),
{
}

/// Where the handles of `delegate` answer as `chain` does, a `sync` as of
/// the first of `blocks` and a `fold` to each block after it end in one
/// epoch, that of [`fold_path`].
pub proof fn lemma_path_answers_as_chain<InputFold, InputContractAddressFold>(
    delegate: AccumulatingEpochFoldDelegate<InputFold, InputContractAddressFold>,
    chain: ChainState,
    initial_state: (Address, U256),
    blocks: Seq<Block>,
    epochs: Seq<AccumulatingEpochView>,
) where
    InputFold: DerivedStateProvider<(Address, U256), EpochInputState>,
    InputContractAddressFold: DerivedStateProvider<Address, InputContractAddressState>,

    requires
        answers_as(delegate, chain),
        path_may_yield(delegate, initial_state, blocks, epochs),
    ensures
        fold_path(chain, initial_state, blocks) == Some(epochs.last()),
    decreases blocks.len(),
{
    if blocks.len() == 1 {
        lemma_sync_answers_as_chain(delegate, chain, initial_state, blocks[0], Ok(epochs[0]));
    } else {
        let last = blocks.len() - 1;
        lemma_path_answers_as_chain(
            delegate,
            chain,
            initial_state,
            blocks.drop_last(),
            epochs.drop_last(),
        );
        lemma_fold_answers_as_chain(
            delegate,
            chain,
            epochs[last - 1],
            blocks[last],
            Ok(epochs[last]),
        );
    }
}

/// Idempotence: against one chain state, the outcome of a `sync` for one key
/// depends on the block through its hash alone. Two of them for the same key
/// and hash end alike, in the same epoch or in the same failure.
pub proof fn lemma_sync_idempotent(
    chain: ChainState,
    initial_state: (Address, U256),
    first_block: Block,
    second_block: Block,
)
    requires
        first_block.hash == second_block.hash,
    ensures
        sync_outcome(chain, initial_state, first_block) == sync_outcome(
            chain,
            initial_state,
            second_block,
        ),
        sync_run(chain, initial_state, first_block) == sync_run(
            chain,
            initial_state,
            second_block,
        ),
{
}

/// Idempotence of the delegate: against an unchanged chain state, two
/// `sync`s for one key as of blocks with one hash end alike.
pub proof fn lemma_delegate_sync_idempotent<InputFold, InputContractAddressFold>(
    delegate: AccumulatingEpochFoldDelegate<InputFold, InputContractAddressFold>,
    chain: ChainState,
    initial_state: (Address, U256),
    first_block: Block,
    second_block: Block,
    first: Result<AccumulatingEpochView, SyncStageErrorView>,
    second: Result<AccumulatingEpochView, SyncStageErrorView>,
) where
    InputFold: DerivedStateProvider<(Address, U256), EpochInputState>,
    InputContractAddressFold: DerivedStateProvider<Address, InputContractAddressState>,

    requires
        answers_as(delegate, chain),
        first_block.hash == second_block.hash,
        delegate.sync_may_yield(initial_state, first_block, first),
        delegate.sync_may_yield(initial_state, second_block, second),
    ensures
        first == second,
{
    lemma_sync_answers_as_chain(delegate, chain, initial_state, first_block, first);
    lemma_sync_answers_as_chain(delegate, chain, initial_state, second_block, second);
}

/// Composition: the epoch that a `sync` yields has the key it was asked
/// for, the input contract that the address resolver derivation answers for
/// the rollup contract at the hash of `block`, and as its inputs what the
/// input-list derivation answers for that input contract and the epoch at
/// the same hash.
pub proof fn lemma_sync_composes(
    chain: ChainState,
    initial_state: (Address, U256),
    block: Block,
    epoch: AccumulatingEpochView,
)
    requires
        sync_outcome(chain, initial_state, block) == Ok::<
            AccumulatingEpochView,
            SyncStageErrorView,
        >(epoch),
    ensures
        epoch.descartesv2_contract_address == initial_state.0,
        epoch.epoch_number == initial_state.1,
        chain.input_contract(initial_state.0, block) == Some(epoch.input_contract_address),
        chain.inputs_of(epoch.input_contract_address, initial_state.1, block) == Some(
            epoch.inputs,
        ),
{
}

/// Field stability: a `fold` that succeeds leaves the epoch number, the
/// rollup contract and the input contract as they were, and takes as inputs
/// what the input-list derivation answers at the hash of `block`.
pub proof fn lemma_fold_keeps_identity(
    chain: ChainState,
    previous_state: AccumulatingEpochView,
    block: Block,
    epoch: AccumulatingEpochView,
)
    requires
        fold_outcome(chain, previous_state, block) == Ok::<
            AccumulatingEpochView,
            FoldStageErrorView,
        >(epoch),
    ensures
        epoch.epoch_number == previous_state.epoch_number,
        epoch.descartesv2_contract_address == previous_state.descartesv2_contract_address,
        epoch.input_contract_address == previous_state.input_contract_address,
        chain.inputs_of(previous_state.input_contract_address, previous_state.epoch_number, block)
            == Some(epoch.inputs),
{
}

/// Field stability of the delegate: whatever the input-list derivation
/// answers, a `fold` that succeeds leaves the epoch number, the rollup
/// contract and the input contract as they were.
pub proof fn lemma_delegate_fold_keeps_identity<InputFold, InputContractAddressFold>(
    delegate: AccumulatingEpochFoldDelegate<InputFold, InputContractAddressFold>,
    previous_state: AccumulatingEpochView,
    block: Block,
    epoch: AccumulatingEpochView,
) where
    InputFold: DerivedStateProvider<(Address, U256), EpochInputState>,
    InputContractAddressFold: DerivedStateProvider<Address, InputContractAddressState>,

    requires
        delegate.fold_may_yield(
            previous_state,
            block,
            Ok::<AccumulatingEpochView, FoldStageErrorView>(epoch),
        ),
    ensures
        epoch.epoch_number == previous_state.epoch_number,
        epoch.descartesv2_contract_address == previous_state.descartesv2_contract_address,
        epoch.input_contract_address == previous_state.input_contract_address,
{
}

/// Error propagation in `sync`: the `sync` fails at the address resolver
/// stage where, and only where, the address resolver derivation fails for
/// the rollup contract at the hash of `block`. The failure then carries the
/// upstream description, and there is no epoch.
pub proof fn lemma_sync_fails_with_address_resolver(
    chain: ChainState,
    initial_state: (Address, U256),
    block: Block,
)
    ensures
        chain.resolved(initial_state.0, block) matches Err(cause) ==> (sync_outcome(
            chain,
            initial_state,
            block,
        ) matches Err(error) && error.stage == Stage::AddressResolution && error.cause
            == cause),
        chain.resolved(initial_state.0, block) is Ok ==> !(sync_outcome(
            chain,
            initial_state,
            block,
        ) matches Err(error) && error.stage == Stage::AddressResolution),
{
}

/// Error propagation in `sync`, second stage: where the address resolver
/// derivation answers with an input contract, the `sync` fails where, and
/// only where, the input-list derivation fails for the epoch under that
/// input contract at the hash of `block`. The failure is then at the input
/// list stage and carries the upstream description.
pub proof fn lemma_sync_fails_with_input_list(
    chain: ChainState,
    initial_state: (Address, U256),
    block: Block,
    input_contract_address: Address,
)
    requires
        chain.input_contract(initial_state.0, block) == Some(input_contract_address),
    ensures
        chain.listed(input_contract_address, initial_state.1, block) matches Err(cause) ==> (
        sync_outcome(chain, initial_state, block) matches Err(error) && error.stage
            == Stage::InputList && error.cause == cause),
        chain.listed(input_contract_address, initial_state.1, block) is Ok ==> sync_outcome(
            chain,
            initial_state,
            block,
        ) is Ok,
{
}

/// Error propagation in `fold`: the `fold` fails where, and only where, the
/// input-list derivation fails for the input contract and the epoch of
/// `previous_state` at the hash of `block`. The failure is then at the input
/// list stage and carries the upstream description.
pub proof fn lemma_fold_fails_with_input_list(
    chain: ChainState,
    previous_state: AccumulatingEpochView,
    block: Block,
)
    ensures
        chain.listed(previous_state.input_contract_address, previous_state.epoch_number, block)
            matches Err(cause) ==> (fold_outcome(chain, previous_state, block) matches Err(error)
            && error.stage == Stage::InputList && error.cause == cause),
        chain.listed(previous_state.input_contract_address, previous_state.epoch_number, block)
            is Ok ==> fold_outcome(chain, previous_state, block) is Ok,
{
}

/// What a `sync` and any number of `fold`s after it end in: an epoch with
/// the key of the `sync`, with the input contract that the address resolver
/// derivation answers at the first block, and with the inputs that the
/// input-list derivation answers for that input contract at the last block.
pub proof fn lemma_fold_path_holds(
    chain: ChainState,
    initial_state: (Address, U256),
    blocks: Seq<Block>,
    epoch: AccumulatingEpochView,
)
    requires
        fold_path(chain, initial_state, blocks) == Some(epoch),
    ensures
        blocks.len() > 0,
        epoch.descartesv2_contract_address == initial_state.0,
        epoch.epoch_number == initial_state.1,
        chain.input_contract(initial_state.0, blocks.first()) == Some(
            epoch.input_contract_address,
        ),
        chain.inputs_of(epoch.input_contract_address, initial_state.1, blocks.last()) == Some(
            epoch.inputs,
        ),
    decreases blocks.len(),
{
    if blocks.len() > 1 {
        let previous_state = fold_path(chain, initial_state, blocks.drop_last())->Some_0;
        lemma_fold_path_holds(chain, initial_state, blocks.drop_last(), previous_state);
    }
}

/// Cross-path equivalence: where a `sync` as of the first of `blocks` and a
/// `fold` to each block after it succeed, and the address resolver
/// derivation answers at the last block with the input contract that it
/// answers with at the first, a `sync` as of the last block yields the very
/// epoch that the path ends in.
pub proof fn lemma_fold_path_is_sync(
    chain: ChainState,
    initial_state: (Address, U256),
    blocks: Seq<Block>,
    epoch: AccumulatingEpochView,
)
    requires
        fold_path(chain, initial_state, blocks) == Some(epoch),
        chain.input_contract(initial_state.0, blocks.last()) == chain.input_contract(
            initial_state.0,
            blocks.first(),
        ),
    ensures
        sync_outcome(chain, initial_state, blocks.last()) == Ok::<
            AccumulatingEpochView,
            SyncStageErrorView,
        >(epoch),
{
    lemma_fold_path_holds(chain, initial_state, blocks, epoch);
}

/// The condition of [`lemma_fold_path_is_sync`] on the address resolver
/// derivation cannot be dropped: where a `sync` as of the last of `blocks`
/// yields the epoch that the path ends in, the address resolver derivation
/// answers at the last block with the input contract that it answers with
/// at the first.
pub proof fn lemma_fold_path_is_sync_only_if(
    chain: ChainState,
    initial_state: (Address, U256),
    blocks: Seq<Block>,
    epoch: AccumulatingEpochView,
)
    requires
        fold_path(chain, initial_state, blocks) == Some(epoch),
        sync_outcome(chain, initial_state, blocks.last()) == Ok::<
            AccumulatingEpochView,
            SyncStageErrorView,
        >(epoch),
    ensures
        chain.input_contract(initial_state.0, blocks.last()) == chain.input_contract(
            initial_state.0,
            blocks.first(),
        ),
{
    lemma_fold_path_holds(chain, initial_state, blocks, epoch);
}

/// Cross-path equivalence of the delegate: against an unchanged chain state
/// in which the address resolver derivation answers at the last of `blocks`
/// with the input contract that it answers with at the first, a `sync` as of
/// the last block yields the last of `epochs`, the epoch that a `sync` as of
/// the first block and a `fold` to each block after it end in.
pub proof fn lemma_delegate_fold_path_is_sync<InputFold, InputContractAddressFold>(
    delegate: AccumulatingEpochFoldDelegate<InputFold, InputContractAddressFold>,
    chain: ChainState,
    initial_state: (Address, U256),
    blocks: Seq<Block>,
    epochs: Seq<AccumulatingEpochView>,
    outcome: Result<AccumulatingEpochView, SyncStageErrorView>,
) where
    InputFold: DerivedStateProvider<(Address, U256), EpochInputState>,
    InputContractAddressFold: DerivedStateProvider<Address, InputContractAddressState>,

    requires
        answers_as(delegate, chain),
        path_may_yield(delegate, initial_state, blocks, epochs),
        chain.input_contract(initial_state.0, blocks.last()) == chain.input_contract(
            initial_state.0,
            blocks.first(),
        ),
        delegate.sync_may_yield(initial_state, blocks.last(), outcome),
    ensures
        outcome == Ok::<AccumulatingEpochView, SyncStageErrorView>(epochs.last()),
{
    lemma_path_answers_as_chain(delegate, chain, initial_state, blocks, epochs);
    lemma_fold_path_is_sync(chain, initial_state, blocks, epochs.last());
    lemma_sync_answers_as_chain(delegate, chain, initial_state, blocks.last(), outcome);
}

} // verus!
