//! The two kinds of failure: one for `sync`, one for `fold`.
//!
//! Either kind names the upstream stage that failed and carries the
//! description of the upstream failure as it was handed in. Nothing reads the
//! description: it is relabelled and passed on.

use vstd::prelude::*;

verus! {

/// The upstream query that failed.
#[derive(Clone, Copy, Debug, PartialEq, Eq)]
pub enum Stage {
    /// The address resolver derivation was asked for the input contract.
    AddressResolution,
    /// The input-list derivation was asked for the inputs of the epoch.
    InputList,
}

impl Stage {
    /// The words that open the message of a failure at this stage.
    pub open spec fn spec_label(self) -> Seq<char> {
        match self {
            Stage::AddressResolution => "input contract address state fold error"@,
            Stage::InputList => "Input state fold error"@,
        }
    }

    /// The words that open the message of a failure at this stage.
    pub fn label(self) -> (text: &'static str)
        ensures
            text@ == self.spec_label(),
    {
        match self {
            Stage::AddressResolution => "input contract address state fold error",
            Stage::InputList => "Input state fold error",
        }
    }
}

/// The message of a failure at `stage` with the upstream description
/// `cause`: the stage's label, a colon and a space, then the description.
pub open spec fn spec_message(stage: Stage, cause: Seq<char>) -> Seq<char> {
    stage.spec_label() + ": "@ + cause
}

/// The message of a failure at `stage` with the upstream description `cause`.
pub fn message(stage: Stage, cause: &str) -> (text: String)
    ensures
        text@ == spec_message(stage, cause@),
{
    let mut text = String::from_str(stage.label());
    text.append(": ");
    text.append(cause);
    text
}

/// A `sync` failed: an upstream query did not succeed.
#[derive(Debug, PartialEq, Eq)]
pub struct SyncStageError {
    pub stage: Stage,
    pub cause: String,
}

/// A [`SyncStageError`] as a mathematical value.
pub struct SyncStageErrorView {
    pub stage: Stage,
    pub cause: Seq<char>,
}

impl View for SyncStageError {
    type V = SyncStageErrorView;

    open spec fn view(&self) -> SyncStageErrorView {
        SyncStageErrorView { stage: self.stage, cause: self.cause@ }
    }
}

impl Clone for SyncStageError {
    fn clone(&self) -> (copy: Self)
        ensures
            copy == *self,
    {
        SyncStageError { stage: self.stage, cause: self.cause.clone() }
    }
}

impl SyncStageError {
    /// The failure in words: which stage failed, and what upstream said.
    pub fn message(&self) -> (text: String)
        ensures
            text@ == spec_message(self.stage, self.cause@),
    {
        message(self.stage, self.cause.as_str())
    }
}

/// A `fold` failed: an upstream query did not succeed.
#[derive(Debug, PartialEq, Eq)]
pub struct FoldStageError {
    pub stage: Stage,
    pub cause: String,
}

/// A [`FoldStageError`] as a mathematical value.
pub struct FoldStageErrorView {
    pub stage: Stage,
    pub cause: Seq<char>,
}

impl View for FoldStageError {
    type V = FoldStageErrorView;

    open spec fn view(&self) -> FoldStageErrorView {
        FoldStageErrorView { stage: self.stage, cause: self.cause@ }
    }
}

impl Clone for FoldStageError {
    fn clone(&self) -> (copy: Self)
        ensures
            copy == *self,
    {
        FoldStageError { stage: self.stage, cause: self.cause.clone() }
    }
}

impl FoldStageError {
    /// The failure in words: which stage failed, and what upstream said.
    pub fn message(&self) -> (text: String)
        ensures
            text@ == spec_message(self.stage, self.cause@),
    {
        message(self.stage, self.cause.as_str())
    }
}

} // verus!
