//! Contract phases, the decoding of phase-change codes, and the composition
//! of a phase from a sealed-epoch snapshot.

use vstd::prelude::*;
use crate::snapshot::{AccumulatingEpoch, EpochWithClaims, SealedEpochState};

verus! {

/// The lifecycle phase of a rollup contract.
#[derive(Clone, Copy, Debug, PartialEq, Eq)]
pub enum ContractPhase {
    InputAccumulation {},
    AwaitingConsensus { sealed_epoch: SealedEpochState, round_start: u64 },
    AwaitingDispute { sealed_epoch: EpochWithClaims },
}

/// Which phase a phase-change code selects, without its payload.
#[derive(Clone, Copy, Debug, PartialEq, Eq)]
pub enum PhaseKind {
    InputAccumulation,
    AwaitingConsensus,
    AwaitingDispute,
}

/// The failures that the library itself detects.
#[derive(Clone, Copy, Debug, PartialEq, Eq)]
pub enum EpochError {
    /// The contract is (or enters) the dispute phase, but its sealed epoch has
    /// no claims.
    IllegalDisputeState { sealed_epoch: AccumulatingEpoch },
    /// A phase-change event carries a code outside 0, 1 and 2.
    UnknownPhaseCode { new_phase: u8 },
}

/// The most recent phase-change event, with the timestamp of its block.
#[derive(Clone, Copy, Debug, PartialEq, Eq)]
pub struct PhaseChange {
    pub new_phase: u8,
    pub timestamp: u64,
}

/// The sub-tracker snapshots to read: the sealed epoch, if the phase has
/// one, and the accumulating epoch.
#[derive(Clone, Copy, Debug, PartialEq, Eq)]
pub struct Fetch {
    pub sealed_epoch: Option<u64>,
    pub accumulating_epoch: u64,
}

/// The phase that the most recent phase-change code selects; no event at
/// all counts as code 0.
pub open spec fn phase_kind_of(code: Option<u8>) -> Result<PhaseKind, EpochError> {
    match code {
        None => Ok(PhaseKind::InputAccumulation),
        Some(c) => if c == 0 {
            Ok(PhaseKind::InputAccumulation)
        } else if c == 1 {
            Ok(PhaseKind::AwaitingConsensus)
        } else if c == 2 {
            Ok(PhaseKind::AwaitingDispute)
        } else {
            Err(EpochError::UnknownPhaseCode { new_phase: c })
        },
    }
}

/// Accumulation has one open epoch, `next_epoch`; the two sealed phases
/// have two: the sealed `next_epoch` and the accumulating one after it.
pub open spec fn fetch_for(kind: PhaseKind, next_epoch: u64) -> Fetch {
    match kind {
        PhaseKind::InputAccumulation => Fetch { sealed_epoch: None, accumulating_epoch: next_epoch },
        _ => Fetch { sealed_epoch: Some(next_epoch), accumulating_epoch: (next_epoch + 1) as u64 },
    }
}

/// The phase of the given kind over a sealed-epoch snapshot; a dispute over
/// an epoch without claims is refused.
pub open spec fn compose_phase_spec(
    kind: PhaseKind,
    sealed: Option<SealedEpochState>,
    round_start: Option<u64>,
) -> Result<ContractPhase, EpochError> {
    match kind {
        PhaseKind::InputAccumulation => Ok(ContractPhase::InputAccumulation {}),
        PhaseKind::AwaitingConsensus => Ok(
            ContractPhase::AwaitingConsensus {
                sealed_epoch: sealed.unwrap(),
                round_start: round_start.unwrap(),
            },
        ),
        PhaseKind::AwaitingDispute => match sealed.unwrap() {
            SealedEpochState::SealedEpochNoClaims { sealed_epoch } => Err(
                EpochError::IllegalDisputeState { sealed_epoch },
            ),
            SealedEpochState::SealedEpochWithClaims { claimed_epoch } => Ok(
                ContractPhase::AwaitingDispute { sealed_epoch: claimed_epoch },
            ),
        },
    }
}

impl ContractPhase {
    pub open spec fn kind_spec(&self) -> PhaseKind {
        match self {
            ContractPhase::InputAccumulation {} => PhaseKind::InputAccumulation,
            ContractPhase::AwaitingConsensus { .. } => PhaseKind::AwaitingConsensus,
            ContractPhase::AwaitingDispute { .. } => PhaseKind::AwaitingDispute,
        }
    }

    /// The number of the sealed epoch, in the phases that have one.
    pub open spec fn sealed_number_spec(&self) -> Option<u64> {
        match self {
            ContractPhase::InputAccumulation {} => None,
            ContractPhase::AwaitingConsensus { sealed_epoch, .. } => Some(
                sealed_epoch.epoch_number_spec(),
            ),
            ContractPhase::AwaitingDispute { sealed_epoch } => Some(sealed_epoch.epoch_number),
        }
    }

    pub fn kind(&self) -> (r: PhaseKind)
        ensures
            r == self.kind_spec(),
    {
        match self {
            ContractPhase::InputAccumulation {} => PhaseKind::InputAccumulation,
            ContractPhase::AwaitingConsensus { .. } => PhaseKind::AwaitingConsensus,
            ContractPhase::AwaitingDispute { .. } => PhaseKind::AwaitingDispute,
        }
    }

    pub fn sealed_number(&self) -> (r: Option<u64>)
        ensures
            r == self.sealed_number_spec(),
    {
        match self {
            ContractPhase::InputAccumulation {} => None,
            ContractPhase::AwaitingConsensus { sealed_epoch, .. } => Some(sealed_epoch.epoch_number()),
            ContractPhase::AwaitingDispute { sealed_epoch } => Some(sealed_epoch.epoch_number),
        }
    }
}

impl PhaseKind {
    /// Decodes the code of the most recent phase-change event.
    pub fn from_code(code: Option<u8>) -> (r: Result<PhaseKind, EpochError>)
        ensures
            r == phase_kind_of(code),
            r is Err <==> (code is Some && code.unwrap() > 2),
    {
        match code {
            None => Ok(PhaseKind::InputAccumulation),
            Some(0) => Ok(PhaseKind::InputAccumulation),
            Some(1) => Ok(PhaseKind::AwaitingConsensus),
            Some(2) => Ok(PhaseKind::AwaitingDispute),
            Some(c) => Err(EpochError::UnknownPhaseCode { new_phase: c }),
        }
    }
}

impl Fetch {
    /// The epochs to read for a phase of the given kind.
    pub fn for_phase(kind: PhaseKind, next_epoch: u64) -> (r: Fetch)
        requires
            next_epoch < u64::MAX,
        ensures
            r == fetch_for(kind, next_epoch),
            r.sealed_epoch is None <==> kind == PhaseKind::InputAccumulation,
    {
        match kind {
            PhaseKind::InputAccumulation => Fetch { sealed_epoch: None, accumulating_epoch: next_epoch },
            _ => Fetch { sealed_epoch: Some(next_epoch), accumulating_epoch: next_epoch + 1 },
        }
    }
}

/// Builds the phase of the given kind; the sealed phases take the sealed
/// snapshot, and consensus takes the time at which its round started.
pub fn compose_phase(
    kind: PhaseKind,
    sealed: Option<SealedEpochState>,
    round_start: Option<u64>,
) -> (r: Result<ContractPhase, EpochError>)
    requires
        kind != PhaseKind::InputAccumulation ==> sealed is Some,
        kind == PhaseKind::AwaitingConsensus ==> round_start is Some,
    ensures
        r == compose_phase_spec(kind, sealed, round_start),
        r is Ok ==> r.unwrap().kind_spec() == kind,
        (kind == PhaseKind::AwaitingDispute && sealed.unwrap() is SealedEpochNoClaims) ==> r
            == Err::<ContractPhase, EpochError>(
            EpochError::IllegalDisputeState { sealed_epoch: sealed.unwrap()->sealed_epoch },
        ),
{
    match kind {
        PhaseKind::InputAccumulation => Ok(ContractPhase::InputAccumulation {}),
        PhaseKind::AwaitingConsensus => Ok(
            ContractPhase::AwaitingConsensus {
                sealed_epoch: sealed.unwrap(),
                round_start: round_start.unwrap(),
            },
        ),
        PhaseKind::AwaitingDispute => match sealed.unwrap() {
            SealedEpochState::SealedEpochNoClaims { sealed_epoch } => Err(
                EpochError::IllegalDisputeState { sealed_epoch },
            ),
            SealedEpochState::SealedEpochWithClaims { claimed_epoch } => Ok(
                ContractPhase::AwaitingDispute { sealed_epoch: claimed_epoch },
            ),
        },
    }
}

} // verus!
