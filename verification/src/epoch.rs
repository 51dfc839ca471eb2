//! The epoch aggregate and the upstream states it is assembled from.

use ethers::types::{Address, U256};
use vstd::prelude::*;

verus! {

/// What the address resolver derivation reports for a rollup contract: the
/// address of the contract that collects its inputs.
#[derive(Clone, Copy, Debug, PartialEq, Eq)]
pub struct InputContractAddressState {
    pub input_contract_address: Address,
}

impl View for InputContractAddressState {
    type V = InputContractAddressState;

    open spec fn view(&self) -> InputContractAddressState {
        *self
    }
}

/// One input submitted to the input contract.
#[derive(Debug, PartialEq, Eq)]
pub struct Input {
    pub sender: Address,
    pub timestamp: U256,
    pub payload: Vec<u8>,
}

/// An [`Input`] as a mathematical value.
pub struct InputView {
    pub sender: Address,
    pub timestamp: U256,
    pub payload: Seq<u8>,
}

impl View for Input {
    type V = InputView;

    open spec fn view(&self) -> InputView {
        InputView { sender: self.sender, timestamp: self.timestamp, payload: self.payload@ }
    }
}

impl Clone for Input {
    fn clone(&self) -> (copy: Self)
        ensures
            copy@ == self@,
    {
        Input { sender: self.sender, timestamp: self.timestamp, payload: self.payload.clone() }
    }
}

/// What the input-list derivation reports for one epoch of one input
/// contract: the inputs submitted during that epoch, in order. The aggregator
/// takes it whole and never looks inside.
#[derive(Debug, PartialEq, Eq)]
pub struct EpochInputState {
    pub epoch_number: U256,
    pub inputs: Vec<Input>,
    pub input_contract_address: Address,
}

/// An [`EpochInputState`] as a mathematical value.
pub struct EpochInputStateView {
    pub epoch_number: U256,
    pub inputs: Seq<InputView>,
    pub input_contract_address: Address,
}

impl View for EpochInputState {
    type V = EpochInputStateView;

    open spec fn view(&self) -> EpochInputStateView {
        EpochInputStateView {
            epoch_number: self.epoch_number,
            inputs: self.inputs@.map_values(|input: Input| input@),
            input_contract_address: self.input_contract_address,
        }
    }
}

impl Clone for EpochInputState {
    fn clone(&self) -> (copy: Self)
        ensures
            copy@ == self@,
    {
        let mut inputs: Vec<Input> = Vec::with_capacity(self.inputs.len());
        let mut done: usize = 0;
        while done < self.inputs.len()
            invariant
                done <= self.inputs.len(),
                inputs.len() == done,
                forall|i: int| 0 <= i < done ==> inputs[i]@ == self.inputs[i]@,
            decreases self.inputs.len() - done,
        {
            inputs.push(self.inputs[done].clone());
            done += 1;
        }
        let copy = EpochInputState {
            epoch_number: self.epoch_number,
            inputs,
            input_contract_address: self.input_contract_address,
        };
        assert(copy@.inputs =~= self@.inputs);
        copy
    }
}

/// The epoch that is collecting inputs, as derived for one block.
///
/// `descartesv2_contract_address` and `epoch_number` identify the aggregate
/// and never change. `input_contract_address` is what the address resolver
/// derivation answered when the aggregate was derived from scratch. `inputs`
/// is what the input-list derivation answered at the block of the latest
/// derivation.
#[derive(Debug, PartialEq, Eq)]
pub struct AccumulatingEpoch {
    pub epoch_number: U256,
    pub inputs: EpochInputState,
    pub descartesv2_contract_address: Address,
    pub input_contract_address: Address,
}

/// An [`AccumulatingEpoch`] as a mathematical value.
pub struct AccumulatingEpochView {
    pub epoch_number: U256,
    pub inputs: EpochInputStateView,
    pub descartesv2_contract_address: Address,
    pub input_contract_address: Address,
}

impl View for AccumulatingEpoch {
    type V = AccumulatingEpochView;

    open spec fn view(&self) -> AccumulatingEpochView {
        AccumulatingEpochView {
            epoch_number: self.epoch_number,
            inputs: self.inputs@,
            descartesv2_contract_address: self.descartesv2_contract_address,
            input_contract_address: self.input_contract_address,
        }
    }
}

impl Clone for AccumulatingEpoch {
    fn clone(&self) -> (copy: Self)
        ensures
            copy@ == self@,
    {
        AccumulatingEpoch {
            epoch_number: self.epoch_number,
            inputs: self.inputs.clone(),
            descartesv2_contract_address: self.descartesv2_contract_address,
            input_contract_address: self.input_contract_address,
        }
    }
}

} // verus!
