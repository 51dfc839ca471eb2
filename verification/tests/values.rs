use accumulating_epoch::chain::{Block, BlockState};
use accumulating_epoch::delegate::AccumulatingEpochFoldDelegate;
use accumulating_epoch::epoch::{AccumulatingEpoch, EpochInputState, Input};
use accumulating_epoch::error::{message, FoldStageError, Stage, SyncStageError};
use accumulating_epoch::sync::{get_input_contract_address_sync, get_inputs_sync};
use accumulating_epoch::fold::get_inputs_fold;
use accumulating_epoch::epoch::InputContractAddressState;
use accumulating_epoch::upstream::Query;
use ethers::types::{Address, Bloom, H256, U256, U64};

fn some_block() -> Block {
    Block {
        hash: H256::from_low_u64_be(100),
        number: U64::from(100u64),
        parent_hash: H256::from_low_u64_be(99),
        timestamp: U256::from(1_600_000_100u64),
        logs_bloom: Bloom::repeat_byte(0x5a),
    }
}

fn some_epoch() -> AccumulatingEpoch {
    AccumulatingEpoch {
        epoch_number: U256::from(5u64),
        inputs: EpochInputState {
            epoch_number: U256::from(5u64),
            inputs: vec![
                Input {
                    sender: Address::from_low_u64_be(7),
                    timestamp: U256::from(11u64),
                    payload: vec![1, 2, 3],
                },
                Input {
                    sender: Address::from_low_u64_be(8),
                    timestamp: U256::from(12u64),
                    payload: Vec::new(),
                },
            ],
            input_contract_address: Address::from_low_u64_be(1),
        },
        descartesv2_contract_address: Address::from_low_u64_be(0xc),
        input_contract_address: Address::from_low_u64_be(1),
    }
}

#[test]
fn convert_hands_back_the_same_block_and_epoch() {
    let delegate = AccumulatingEpochFoldDelegate::new((), ());
    let accumulator = BlockState { block: some_block(), state: some_epoch() };
    let state = delegate.convert(&accumulator);
    assert_eq!(state, accumulator);
    assert_eq!(state.block, some_block());
    assert_eq!(state.state, some_epoch());
}

#[test]
fn a_clone_of_an_epoch_holds_the_same_inputs() {
    let epoch = some_epoch();
    let copy = epoch.clone();
    assert_eq!(copy, epoch);
    assert_eq!(copy.inputs.inputs.len(), 2);
    assert_eq!(copy.inputs.inputs[0].payload, vec![1, 2, 3]);
    assert!(copy.inputs.inputs[1].payload.is_empty());
}

#[test]
fn a_clone_of_a_block_state_holds_the_same_block_and_state() {
    let state = BlockState { block: some_block(), state: some_epoch() };
    assert_eq!(state.clone(), state);
}

#[test]
fn the_delegate_hands_out_the_handles_it_was_made_with() {
    let delegate = AccumulatingEpochFoldDelegate::new("inputs", 17u8);
    assert_eq!(*delegate.input_fold(), "inputs");
    assert_eq!(*delegate.input_contract_address_fold(), 17u8);
}

#[test]
fn a_pinned_query_holds_the_key_and_the_hash() {
    let key = (Address::from_low_u64_be(1), U256::from(5u64));
    let query = Query::pinned(key, H256::from_low_u64_be(100));
    assert_eq!(query.key, key);
    assert_eq!(query.block_hash, Some(H256::from_low_u64_be(100)));
    assert_eq!(query.clone(), query);
}

#[test]
fn the_message_of_a_sync_failure_at_the_address_resolver() {
    let error = SyncStageError {
        stage: Stage::AddressResolution,
        cause: String::from("BlockUnavailable"),
    };
    assert_eq!(
        error.message(),
        "input contract address state fold error: BlockUnavailable"
    );
    assert_eq!(error.clone(), error);
}

#[test]
fn the_message_of_a_sync_failure_at_the_input_list() {
    let error = SyncStageError { stage: Stage::InputList, cause: String::from("KeyNotFound") };
    assert_eq!(error.message(), "Input state fold error: KeyNotFound");
}

#[test]
fn the_message_of_a_fold_failure_at_the_input_list() {
    let error = FoldStageError { stage: Stage::InputList, cause: String::from("KeyNotFound") };
    assert_eq!(error.message(), "Input state fold error: KeyNotFound");
    assert_eq!(error.clone(), error);
}

#[test]
fn the_message_of_a_failure_without_a_description() {
    assert_eq!(message(Stage::InputList, ""), "Input state fold error: ");
    assert_eq!(
        message(Stage::AddressResolution, ""),
        "input contract address state fold error: "
    );
}

#[test]
fn the_labels_of_the_stages() {
    assert_eq!(Stage::AddressResolution.label(), "input contract address state fold error");
    assert_eq!(Stage::InputList.label(), "Input state fold error");
}

#[test]
fn the_address_resolver_answer_is_read_for_its_input_contract() {
    let answer = Ok(BlockState {
        block: some_block(),
        state: InputContractAddressState { input_contract_address: Address::from_low_u64_be(1) },
    });
    assert_eq!(get_input_contract_address_sync(answer), Ok(Address::from_low_u64_be(1)));
    assert_eq!(
        get_input_contract_address_sync(Err(String::from("x"))),
        Err(SyncStageError { stage: Stage::AddressResolution, cause: String::from("x") })
    );
}

#[test]
fn the_input_list_answer_is_taken_whole() {
    let listed = some_epoch().inputs;
    assert_eq!(
        get_inputs_sync(Ok(BlockState { block: some_block(), state: listed.clone() })),
        Ok(listed.clone())
    );
    assert_eq!(
        get_inputs_fold(Ok(BlockState { block: some_block(), state: listed.clone() })),
        Ok(listed)
    );
    assert_eq!(
        get_inputs_sync(Err(String::from("x"))),
        Err(SyncStageError { stage: Stage::InputList, cause: String::from("x") })
    );
    assert_eq!(
        get_inputs_fold(Err(String::from("x"))),
        Err(FoldStageError { stage: Stage::InputList, cause: String::from("x") })
    );
}
