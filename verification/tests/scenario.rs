use std::cell::RefCell;

use accumulating_epoch::chain::{Block, BlockState};
use accumulating_epoch::delegate::AccumulatingEpochFoldDelegate;
use accumulating_epoch::epoch::{
    AccumulatingEpoch, EpochInputState, Input, InputContractAddressState,
};
use accumulating_epoch::error::{FoldStageError, Stage, SyncStageError};
use accumulating_epoch::fold::FoldListingInputs;
use accumulating_epoch::sync::SyncResolvingAddress;
use accumulating_epoch::upstream::{ask, DerivedStateProvider, Query};
use ethers::types::{Address, Bloom, H256, U256, U64};

/// An upstream derivation that answers from a list of rows and remembers
/// what it was asked.
struct Table<K, V> {
    rows: Vec<(K, H256, Result<V, String>)>,
    asked: RefCell<Vec<(K, Option<H256>)>>,
}

impl<K, V> Table<K, V> {
    fn new(rows: Vec<(K, H256, Result<V, String>)>) -> Self {
        Table { rows, asked: RefCell::new(Vec::new()) }
    }
}

impl<K: PartialEq + Clone, V: Clone> DerivedStateProvider<K, V> for Table<K, V> {
    fn get_state_for_block(
        &self,
        key: &K,
        block_hash: Option<H256>,
    ) -> Result<BlockState<V>, String> {
        self.asked.borrow_mut().push((key.clone(), block_hash));
        for (row_key, row_hash, answer) in &self.rows {
            if row_key == key && Some(*row_hash) == block_hash {
                return match answer {
                    Ok(state) => Ok(BlockState {
                        block: block(row_hash.to_low_u64_be()),
                        state: state.clone(),
                    }),
                    Err(cause) => Err(cause.clone()),
                };
            }
        }
        Err(String::from("unknown key or block"))
    }
}

fn block(number: u64) -> Block {
    Block {
        hash: H256::from_low_u64_be(number),
        number: U64::from(number),
        parent_hash: H256::from_low_u64_be(number - 1),
        timestamp: U256::from(1_600_000_000u64 + number),
        logs_bloom: Bloom::zero(),
    }
}

fn input(tag: u8) -> Input {
    Input {
        sender: Address::from_low_u64_be(0xbeef),
        timestamp: U256::from(tag),
        payload: vec![tag, tag + 1, tag + 2],
    }
}

fn contract() -> Address {
    Address::from_low_u64_be(0xc)
}

fn input_contract() -> Address {
    Address::from_low_u64_be(0x1)
}

fn epoch_five() -> U256 {
    U256::from(5u64)
}

fn inputs_of(tags: &[u8]) -> EpochInputState {
    EpochInputState {
        epoch_number: epoch_five(),
        inputs: tags.iter().map(|tag| input(*tag)).collect(),
        input_contract_address: input_contract(),
    }
}

fn resolver() -> Table<Address, InputContractAddressState> {
    Table::new(vec![
        (
            contract(),
            block(100).hash,
            Ok(InputContractAddressState { input_contract_address: input_contract() }),
        ),
        (
            contract(),
            block(101).hash,
            Ok(InputContractAddressState { input_contract_address: input_contract() }),
        ),
    ])
}

fn input_list() -> Table<(Address, U256), EpochInputState> {
    Table::new(vec![
        ((input_contract(), epoch_five()), block(100).hash, Ok(inputs_of(&[0, 1]))),
        ((input_contract(), epoch_five()), block(101).hash, Ok(inputs_of(&[0, 1, 2]))),
    ])
}

#[test]
fn sync_at_block_100_assembles_the_epoch() {
    let delegate = AccumulatingEpochFoldDelegate::new(input_list(), resolver());
    let epoch = delegate.sync(&(contract(), epoch_five()), &block(100));
    assert_eq!(
        epoch,
        Ok(AccumulatingEpoch {
            epoch_number: epoch_five(),
            inputs: inputs_of(&[0, 1]),
            descartesv2_contract_address: contract(),
            input_contract_address: input_contract(),
        })
    );
}

#[test]
fn sync_pins_both_queries_to_the_block_hash() {
    let delegate = AccumulatingEpochFoldDelegate::new(input_list(), resolver());
    delegate.sync(&(contract(), epoch_five()), &block(100)).unwrap();
    assert_eq!(
        *delegate.input_contract_address_fold().asked.borrow(),
        vec![(contract(), Some(block(100).hash))]
    );
    assert_eq!(
        *delegate.input_fold().asked.borrow(),
        vec![((input_contract(), epoch_five()), Some(block(100).hash))]
    );
}

#[test]
fn fold_to_block_101_takes_the_new_inputs_and_keeps_the_rest() {
    let delegate = AccumulatingEpochFoldDelegate::new(input_list(), resolver());
    let at_100 = delegate.sync(&(contract(), epoch_five()), &block(100)).unwrap();
    let at_101 = delegate.fold(&at_100, &block(101));
    assert_eq!(
        at_101,
        Ok(AccumulatingEpoch {
            epoch_number: epoch_five(),
            inputs: inputs_of(&[0, 1, 2]),
            descartesv2_contract_address: contract(),
            input_contract_address: input_contract(),
        })
    );
}

#[test]
fn fold_does_not_ask_the_address_resolver() {
    let delegate = AccumulatingEpochFoldDelegate::new(input_list(), resolver());
    let previous = AccumulatingEpoch {
        epoch_number: epoch_five(),
        inputs: inputs_of(&[0, 1]),
        descartesv2_contract_address: contract(),
        input_contract_address: input_contract(),
    };
    delegate.fold(&previous, &block(101)).unwrap();
    assert!(delegate.input_contract_address_fold().asked.borrow().is_empty());
    assert_eq!(
        *delegate.input_fold().asked.borrow(),
        vec![((input_contract(), epoch_five()), Some(block(101).hash))]
    );
}

#[test]
fn fold_keeps_the_input_contract_of_the_previous_state() {
    let moved = Address::from_low_u64_be(0x2);
    let resolver = Table::new(vec![(
        contract(),
        block(101).hash,
        Ok(InputContractAddressState { input_contract_address: moved }),
    )]);
    let delegate = AccumulatingEpochFoldDelegate::new(input_list(), resolver);
    let previous = AccumulatingEpoch {
        epoch_number: epoch_five(),
        inputs: inputs_of(&[0, 1]),
        descartesv2_contract_address: contract(),
        input_contract_address: input_contract(),
    };
    let next = delegate.fold(&previous, &block(101)).unwrap();
    assert_eq!(next.input_contract_address, input_contract());
    assert_eq!(next.inputs, inputs_of(&[0, 1, 2]));
}

#[test]
fn sync_fails_at_the_address_resolver_and_asks_no_further() {
    let resolver: Table<Address, InputContractAddressState> =
        Table::new(vec![(contract(), block(100).hash, Err(String::from("block evicted")))]);
    let delegate = AccumulatingEpochFoldDelegate::new(input_list(), resolver);
    let outcome = delegate.sync(&(contract(), epoch_five()), &block(100));
    assert_eq!(
        outcome,
        Err(SyncStageError {
            stage: Stage::AddressResolution,
            cause: String::from("block evicted"),
        })
    );
    assert!(delegate.input_fold().asked.borrow().is_empty());
}

#[test]
fn sync_fails_at_the_input_list() {
    let input_list: Table<(Address, U256), EpochInputState> = Table::new(vec![(
        (input_contract(), epoch_five()),
        block(100).hash,
        Err(String::from("key not found")),
    )]);
    let delegate = AccumulatingEpochFoldDelegate::new(input_list, resolver());
    let outcome = delegate.sync(&(contract(), epoch_five()), &block(100));
    assert_eq!(
        outcome,
        Err(SyncStageError { stage: Stage::InputList, cause: String::from("key not found") })
    );
}

#[test]
fn sync_fails_for_a_block_that_upstream_cannot_resolve() {
    let delegate = AccumulatingEpochFoldDelegate::new(input_list(), resolver());
    let outcome = delegate.sync(&(contract(), epoch_five()), &block(7));
    assert_eq!(
        outcome,
        Err(SyncStageError {
            stage: Stage::AddressResolution,
            cause: String::from("unknown key or block"),
        })
    );
}

#[test]
fn fold_fails_at_the_input_list() {
    let input_list: Table<(Address, U256), EpochInputState> = Table::new(vec![(
        (input_contract(), epoch_five()),
        block(101).hash,
        Err(String::from("upstream computation failed")),
    )]);
    let delegate = AccumulatingEpochFoldDelegate::new(input_list, resolver());
    let previous = AccumulatingEpoch {
        epoch_number: epoch_five(),
        inputs: inputs_of(&[0, 1]),
        descartesv2_contract_address: contract(),
        input_contract_address: input_contract(),
    };
    let outcome = delegate.fold(&previous, &block(101));
    assert_eq!(
        outcome,
        Err(FoldStageError {
            stage: Stage::InputList,
            cause: String::from("upstream computation failed"),
        })
    );
}

#[test]
fn sync_twice_yields_equal_epochs() {
    let delegate = AccumulatingEpochFoldDelegate::new(input_list(), resolver());
    let first = delegate.sync(&(contract(), epoch_five()), &block(100));
    let second = delegate.sync(&(contract(), epoch_five()), &block(100));
    assert!(first.is_ok());
    assert_eq!(first, second);
}

#[test]
fn sync_depends_on_the_block_through_its_hash_alone() {
    let delegate = AccumulatingEpochFoldDelegate::new(input_list(), resolver());
    let mut other = block(100);
    other.number = U64::from(3u64);
    other.parent_hash = H256::from_low_u64_be(77);
    other.timestamp = U256::from(1u64);
    let first = delegate.sync(&(contract(), epoch_five()), &block(100));
    let second = delegate.sync(&(contract(), epoch_five()), &other);
    assert!(first.is_ok());
    assert_eq!(first, second);
}

#[test]
fn sync_then_fold_equals_sync_at_the_last_block() {
    let delegate = AccumulatingEpochFoldDelegate::new(input_list(), resolver());
    let key = (contract(), epoch_five());
    let at_100 = delegate.sync(&key, &block(100)).unwrap();
    let folded = delegate.fold(&at_100, &block(101)).unwrap();
    let synced = delegate.sync(&key, &block(101)).unwrap();
    assert_eq!(folded, synced);
}

#[test]
fn a_longer_path_of_folds_equals_sync_at_the_last_block() {
    let key = (contract(), epoch_five());
    let mut resolved = Vec::new();
    let mut listed = Vec::new();
    for number in 100u64..105 {
        resolved.push((
            contract(),
            block(number).hash,
            Ok(InputContractAddressState { input_contract_address: input_contract() }),
        ));
        let tags: Vec<u8> = (100..=number).map(|n| (n - 100) as u8).collect();
        listed.push(((input_contract(), epoch_five()), block(number).hash, Ok(inputs_of(&tags))));
    }
    let delegate = AccumulatingEpochFoldDelegate::new(Table::new(listed), Table::new(resolved));
    let mut epoch = delegate.sync(&key, &block(100)).unwrap();
    for number in 101u64..105 {
        epoch = delegate.fold(&epoch, &block(number)).unwrap();
    }
    assert_eq!(epoch, delegate.sync(&key, &block(104)).unwrap());
    assert_eq!(epoch.inputs, inputs_of(&[0, 1, 2, 3, 4]));
}

#[test]
fn a_path_and_a_sync_part_where_the_resolver_changes_its_answer() {
    let moved = Address::from_low_u64_be(0x2);
    let resolver = Table::new(vec![
        (
            contract(),
            block(100).hash,
            Ok(InputContractAddressState { input_contract_address: input_contract() }),
        ),
        (
            contract(),
            block(101).hash,
            Ok(InputContractAddressState { input_contract_address: moved }),
        ),
    ]);
    let input_list = Table::new(vec![
        ((input_contract(), epoch_five()), block(100).hash, Ok(inputs_of(&[0, 1]))),
        ((input_contract(), epoch_five()), block(101).hash, Ok(inputs_of(&[0, 1, 2]))),
        ((moved, epoch_five()), block(101).hash, Ok(inputs_of(&[9]))),
    ]);
    let delegate = AccumulatingEpochFoldDelegate::new(input_list, resolver);
    let key = (contract(), epoch_five());
    let at_100 = delegate.sync(&key, &block(100)).unwrap();
    let folded = delegate.fold(&at_100, &block(101)).unwrap();
    let synced = delegate.sync(&key, &block(101)).unwrap();
    assert_eq!(folded.input_contract_address, input_contract());
    assert_eq!(synced.input_contract_address, moved);
    assert_ne!(folded, synced);
}

#[test]
fn the_inputs_of_a_sync_are_the_answer_of_the_input_list() {
    let delegate = AccumulatingEpochFoldDelegate::new(input_list(), resolver());
    let epoch = delegate.sync(&(contract(), epoch_five()), &block(100)).unwrap();
    let resolved = delegate
        .input_contract_address_fold()
        .get_state_for_block(&contract(), Some(block(100).hash))
        .unwrap()
        .state
        .input_contract_address;
    let direct = delegate
        .input_fold()
        .get_state_for_block(&(resolved, epoch_five()), Some(block(100).hash))
        .unwrap();
    assert_eq!(epoch.inputs, direct.state);
}

#[test]
fn the_stages_of_a_sync_say_what_to_ask_and_take_the_answers() {
    let b100 = block(100);
    let first = SyncResolvingAddress::start(&(contract(), epoch_five()), &b100);
    assert_eq!(first.query(), Query { key: contract(), block_hash: Some(b100.hash) });
    let second = first
        .resume(Ok(BlockState {
            block: b100,
            state: InputContractAddressState { input_contract_address: input_contract() },
        }))
        .unwrap();
    assert_eq!(
        second.query(),
        Query { key: (input_contract(), epoch_five()), block_hash: Some(b100.hash) }
    );
    let epoch = second.resume(Ok(BlockState { block: b100, state: inputs_of(&[0, 1]) }));
    assert_eq!(
        epoch,
        Ok(AccumulatingEpoch {
            epoch_number: epoch_five(),
            inputs: inputs_of(&[0, 1]),
            descartesv2_contract_address: contract(),
            input_contract_address: input_contract(),
        })
    );
}

#[test]
fn the_stage_of_a_fold_says_what_to_ask_and_takes_the_answer() {
    let previous = AccumulatingEpoch {
        epoch_number: epoch_five(),
        inputs: inputs_of(&[0, 1]),
        descartesv2_contract_address: contract(),
        input_contract_address: input_contract(),
    };
    let b101 = block(101);
    let stage = FoldListingInputs::start(&previous, &b101);
    assert_eq!(
        stage.query(),
        Query { key: (input_contract(), epoch_five()), block_hash: Some(b101.hash) }
    );
    let next = stage.resume(Ok(BlockState { block: b101, state: inputs_of(&[0, 1, 2]) }));
    assert_eq!(
        next,
        Ok(AccumulatingEpoch {
            epoch_number: epoch_five(),
            inputs: inputs_of(&[0, 1, 2]),
            descartesv2_contract_address: contract(),
            input_contract_address: input_contract(),
        })
    );
    let failed = stage.resume(Err(String::from("gone")));
    assert_eq!(
        failed,
        Err(FoldStageError { stage: Stage::InputList, cause: String::from("gone") })
    );
}

#[test]
fn the_first_stage_of_a_sync_fails_with_the_resolver() {
    let first = SyncResolvingAddress::start(&(contract(), epoch_five()), &block(100));
    assert_eq!(
        first.resume(Err(String::from("gone"))),
        Err(SyncStageError { stage: Stage::AddressResolution, cause: String::from("gone") })
    );
}

#[test]
fn an_epoch_without_inputs_is_an_epoch() {
    let input_list = Table::new(vec![(
        (input_contract(), epoch_five()),
        block(100).hash,
        Ok(inputs_of(&[])),
    )]);
    let delegate = AccumulatingEpochFoldDelegate::new(input_list, resolver());
    let epoch = delegate.sync(&(contract(), epoch_five()), &block(100)).unwrap();
    assert!(epoch.inputs.inputs.is_empty());
    assert_eq!(epoch.epoch_number, epoch_five());
}

#[test]
fn asking_puts_the_key_and_the_pin_of_the_query_to_the_provider() {
    let provider = resolver();
    let query = Query::pinned(contract(), block(101).hash);
    let answer = ask(&provider, &query);
    assert_eq!(
        answer,
        Ok(BlockState {
            block: block(101),
            state: InputContractAddressState { input_contract_address: input_contract() },
        })
    );
    assert_eq!(*provider.asked.borrow(), vec![(contract(), Some(block(101).hash))]);
}
