//! Snapshots handed over by the three sub-trackers: the finalized-epoch
//! ledger, the accumulating epoch and the sealed epoch.

use vstd::prelude::*;

verus! {

/// Identity of a tracked rollup contract instance.
#[derive(Clone, Copy, Debug, PartialEq, Eq)]
pub struct Address {
    pub bytes: [u8; 20],
}

/// The ledger of finalized epochs of one contract instance, as of a block.
#[derive(Clone, Copy, Debug, PartialEq, Eq)]
pub struct FinalizedEpochs {
    /// The epoch that this lineage starts counting from.
    pub initial_epoch: u64,
    /// How many epochs have been finalized since `initial_epoch`.
    pub finalized_count: u64,
}

impl FinalizedEpochs {
    /// The number of the oldest epoch that is not finalized yet.
    pub open spec fn next_epoch_spec(&self) -> int {
        self.initial_epoch + self.finalized_count
    }

    /// The next epoch and the one after it are representable.
    pub open spec fn wf(&self) -> bool {
        self.next_epoch_spec() < u64::MAX
    }

    pub fn next_epoch(&self) -> (r: u64)
        requires
            self.wf(),
        ensures
            r == self.next_epoch_spec(),
    {
        self.initial_epoch + self.finalized_count
    }
}

/// The epoch that is currently collecting inputs.
#[derive(Clone, Copy, Debug, PartialEq, Eq)]
pub struct AccumulatingEpoch {
    pub epoch_number: u64,
    pub input_count: u64,
}

/// A sealed epoch on which at least one claim was submitted.
#[derive(Clone, Copy, Debug, PartialEq, Eq)]
pub struct EpochWithClaims {
    pub epoch_number: u64,
    pub input_count: u64,
    pub claim_count: u64,
}

/// An epoch that no longer accepts inputs and awaits consensus.
#[derive(Clone, Copy, Debug, PartialEq, Eq)]
pub enum SealedEpochState {
    SealedEpochNoClaims { sealed_epoch: AccumulatingEpoch },
    SealedEpochWithClaims { claimed_epoch: EpochWithClaims },
}

impl SealedEpochState {
    pub open spec fn epoch_number_spec(&self) -> u64 {
        match self {
            SealedEpochState::SealedEpochNoClaims { sealed_epoch } => sealed_epoch.epoch_number,
            SealedEpochState::SealedEpochWithClaims { claimed_epoch } => claimed_epoch.epoch_number,
        }
    }

    pub fn epoch_number(&self) -> (r: u64)
        ensures
            r == self.epoch_number_spec(),
    {
        match self {
            SealedEpochState::SealedEpochNoClaims { sealed_epoch } => sealed_epoch.epoch_number,
            SealedEpochState::SealedEpochWithClaims { claimed_epoch } => claimed_epoch.epoch_number,
        }
    }
}

} // verus!
