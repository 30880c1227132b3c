//! The epoch state of a contract instance, rebuilt at a block (`sync`) or
//! advanced by one block from a trusted state (`fold`).

use vstd::prelude::*;
use crate::phase::{
    compose_phase, compose_phase_spec, fetch_for, phase_kind_of, ContractPhase, EpochError, Fetch,
    PhaseChange, PhaseKind,
};
use crate::bloom::{abi_event_topic, bloom_contains, bloom_reports, uint_event_topic, BLOOM_BYTES};
use crate::snapshot::{AccumulatingEpoch, Address, FinalizedEpochs, SealedEpochState};

verus! {

/// The state of a contract instance's epochs as of one block.
#[derive(Clone, Copy, Debug, PartialEq, Eq)]
pub struct EpochState {
    pub initial_epoch: u64,
    pub current_phase: ContractPhase,
    pub finalized_epochs: FinalizedEpochs,
    pub current_epoch: AccumulatingEpoch,
    /// Timestamp of the most recent phase change, if there was one.
    pub phase_change_timestamp: Option<u64>,
    /// The tracked contract instance; carried unchanged along a lineage.
    pub dapp_contract_address: Address,
}

/// What the warm path reads after looking at a block's log summary.
#[derive(Clone, Copy, Debug, PartialEq, Eq)]
pub enum FoldPlan {
    /// No phase change can be in the block: refresh these snapshots only.
    Refresh { fetch: Fetch },
    /// The block may hold a phase change: re-read the ledger and the block's
    /// phase-change events.
    QueryBlock,
}

/// The code of an event, if there is one.
pub open spec fn code_of(event: Option<PhaseChange>) -> Option<u8> {
    match event {
        Some(e) => Some(e.new_phase),
        None => None,
    }
}

/// The block timestamp of an event, if there is one.
pub open spec fn timestamp_of(event: Option<PhaseChange>) -> Option<u64> {
    match event {
        Some(e) => Some(e.timestamp),
        None => None,
    }
}

/// The snapshots to read, at the ledger's next epoch, for the phase that the
/// code selects.
pub open spec fn sync_plan_spec(finalized: FinalizedEpochs, code: Option<u8>) -> Result<
    Fetch,
    EpochError,
> {
    match phase_kind_of(code) {
        Ok(kind) => Ok(fetch_for(kind, finalized.next_epoch_spec() as u64)),
        Err(e) => Err(e),
    }
}

/// The state rebuilt from the ledger, the most recent phase-change event up
/// to the block, and the snapshots read at the block.
pub open spec fn sync_spec(
    address: Address,
    initial_epoch: u64,
    finalized: FinalizedEpochs,
    last_event: Option<PhaseChange>,
    sealed: Option<SealedEpochState>,
    current_epoch: AccumulatingEpoch,
) -> Result<EpochState, EpochError> {
    match phase_kind_of(code_of(last_event)) {
        Err(e) => Err(e),
        Ok(kind) => match compose_phase_spec(kind, sealed, timestamp_of(last_event)) {
            Err(e) => Err(e),
            Ok(phase) => Ok(
                EpochState {
                    initial_epoch,
                    current_phase: phase,
                    finalized_epochs: finalized,
                    current_epoch,
                    phase_change_timestamp: timestamp_of(last_event),
                    dapp_contract_address: address,
                },
            ),
        },
    }
}

/// The snapshots carry the epoch numbers that `fetch` asked for.
pub open spec fn snapshots_fit(
    fetch: Fetch,
    sealed: Option<SealedEpochState>,
    current_epoch: AccumulatingEpoch,
) -> bool {
    &&& current_epoch.epoch_number == fetch.accumulating_epoch
    &&& fetch.sealed_epoch is Some ==> sealed is Some && sealed.unwrap().epoch_number_spec()
        == fetch.sealed_epoch.unwrap()
}

/// Whether a block whose log summary is `bloom` may hold a phase change of
/// the contract at `address`: the summary must report both the address and
/// the topic of the `PhaseChange(uint8)` event.
pub open spec fn may_hold_phase_change(bloom: Seq<u8>, address: Address) -> bool {
    &&& bloom_reports(bloom, address.bytes@)
    &&& bloom_reports(bloom, abi_event_topic("PhaseChange"@, 8))
}

/// The warm path's first decision: whether the block may hold a phase change.
pub open spec fn fold_plan_spec(previous: EpochState, may_hold_phase_change: bool) -> FoldPlan {
    if may_hold_phase_change {
        FoldPlan::QueryBlock
    } else {
        FoldPlan::Refresh { fetch: previous.refresh_fetch_spec() }
    }
}

/// The state advanced through a block without a phase change: the phase
/// stays, its snapshots are replaced.
pub open spec fn fold_quiet_spec(
    previous: EpochState,
    sealed: Option<SealedEpochState>,
    current_epoch: AccumulatingEpoch,
) -> Result<EpochState, EpochError> {
    let phase = match previous.current_phase {
        ContractPhase::InputAccumulation {} => Ok(ContractPhase::InputAccumulation {}),
        ContractPhase::AwaitingConsensus { round_start, .. } => Ok(
            ContractPhase::AwaitingConsensus { sealed_epoch: sealed.unwrap(), round_start },
        ),
        ContractPhase::AwaitingDispute { .. } => compose_phase_spec(
            PhaseKind::AwaitingDispute,
            sealed,
            None,
        ),
    };
    match phase {
        Err(e) => Err(e),
        Ok(p) => Ok(EpochState { current_phase: p, current_epoch, ..previous }),
    }
}

/// The snapshots to read for a block whose phase-change events were read:
/// with no event in the block the phase stays, and so do its epochs; else as
/// in a rebuild, from the ledger at the block.
pub open spec fn fold_query_plan_spec(
    previous: EpochState,
    finalized: FinalizedEpochs,
    last_code: Option<u8>,
) -> Result<Fetch, EpochError> {
    if last_code is None {
        Ok(previous.refresh_fetch_spec())
    } else {
        sync_plan_spec(finalized, last_code)
    }
}

/// The state advanced through a block whose phase-change events were read:
/// `last_code` is the code of the block's last one, if any. A block without
/// one is a block without a phase change.
pub open spec fn fold_spec(
    previous: EpochState,
    finalized: FinalizedEpochs,
    last_code: Option<u8>,
    block_timestamp: u64,
    sealed: Option<SealedEpochState>,
    current_epoch: AccumulatingEpoch,
) -> Result<EpochState, EpochError> {
    if last_code is None {
        fold_quiet_spec(previous, sealed, current_epoch)
    } else {
        match phase_kind_of(last_code) {
            Err(e) => Err(e),
            Ok(kind) => match compose_phase_spec(kind, sealed, Some(block_timestamp)) {
                Err(e) => Err(e),
                Ok(phase) => Ok(
                    EpochState {
                        initial_epoch: previous.initial_epoch,
                        current_phase: phase,
                        finalized_epochs: finalized,
                        current_epoch,
                        phase_change_timestamp: Some(block_timestamp),
                        dapp_contract_address: previous.dapp_contract_address,
                    },
                ),
            },
        }
    }
}

impl EpochState {
    /// The open epochs are the ones that the ledger's count and the phase
    /// call for: one in accumulation, the sealed one and its successor else.
    pub open spec fn wf(&self) -> bool {
        let next = self.finalized_epochs.next_epoch_spec();
        match self.current_phase {
            ContractPhase::InputAccumulation {} => self.current_epoch.epoch_number == next,
            _ => {
                &&& self.current_phase.sealed_number_spec() == Some(next as u64)
                &&& self.current_epoch.epoch_number == next + 1
            },
        }
    }

    /// The snapshots to refresh through a block without a phase change.
    pub open spec fn refresh_fetch_spec(&self) -> Fetch {
        Fetch {
            sealed_epoch: self.current_phase.sealed_number_spec(),
            accumulating_epoch: self.current_epoch.epoch_number,
        }
    }

    /// Which snapshots to read when rebuilding at a block whose ledger is
    /// `finalized` and whose most recent phase-change code is `last_code`.
    pub fn sync_plan(finalized: &FinalizedEpochs, last_code: Option<u8>) -> (r: Result<
        Fetch,
        EpochError,
    >)
        requires
            finalized.wf(),
        ensures
            r == sync_plan_spec(*finalized, last_code),
    {
        let kind = PhaseKind::from_code(last_code)?;
        let next_epoch = finalized.next_epoch();
        Ok(Fetch::for_phase(kind, next_epoch))
    }

    /// Rebuilds the state at a block from `(dapp_contract_address,
    /// initial_epoch)`, the ledger at the block, the most recent phase-change
    /// event up to it, and the snapshots that `sync_plan` asked for.
    pub fn sync(
        initial_state: (Address, u64),
        finalized_epochs: FinalizedEpochs,
        last_event: Option<PhaseChange>,
        sealed_epoch: Option<SealedEpochState>,
        current_epoch: AccumulatingEpoch,
    ) -> (r: Result<EpochState, EpochError>)
        requires
            phase_kind_of(code_of(last_event)) matches Ok(kind) && kind
                != PhaseKind::InputAccumulation ==> sealed_epoch is Some,
        ensures
            r == sync_spec(
                initial_state.0,
                initial_state.1,
                finalized_epochs,
                last_event,
                sealed_epoch,
                current_epoch,
            ),
            r is Ok <==> (phase_kind_of(code_of(last_event)) matches Ok(kind) && !(kind
                == PhaseKind::AwaitingDispute && sealed_epoch.unwrap() is SealedEpochNoClaims)),
            r matches Ok(s) ==> s.phase_change_timestamp == timestamp_of(last_event),
            (code_of(last_event) == Some(2u8) && sealed_epoch.unwrap() is SealedEpochNoClaims)
                ==> r == Err::<EpochState, EpochError>(
                EpochError::IllegalDisputeState {
                    sealed_epoch: sealed_epoch.unwrap()->sealed_epoch,
                },
            ),
            (finalized_epochs.wf() && sync_plan_spec(finalized_epochs, code_of(last_event)) is Ok
                && snapshots_fit(
                sync_plan_spec(finalized_epochs, code_of(last_event)).unwrap(),
                sealed_epoch,
                current_epoch,
            ) && r is Ok) ==> r.unwrap().wf(),
    {
        let (dapp_contract_address, initial_epoch) = initial_state;
        let (code, phase_change_timestamp) = match last_event {
            Some(e) => (Some(e.new_phase), Some(e.timestamp)),
            None => (None, None),
        };
        let kind = PhaseKind::from_code(code)?;
        let current_phase = compose_phase(kind, sealed_epoch, phase_change_timestamp)?;
        Ok(
            EpochState {
                initial_epoch,
                current_phase,
                finalized_epochs,
                current_epoch,
                phase_change_timestamp,
                dapp_contract_address,
            },
        )
    }

    /// The snapshots to refresh when the block holds no phase change: the
    /// same epochs as before.
    pub fn refresh_fetch(&self) -> (r: Fetch)
        ensures
            r == self.refresh_fetch_spec(),
    {
        Fetch {
            sealed_epoch: self.current_phase.sealed_number(),
            accumulating_epoch: self.current_epoch.epoch_number,
        }
    }

    /// The warm path's first decision, given whether the block's log summary
    /// may hold a phase change of this contract.
    pub fn fold_plan_from(&self, may_hold_phase_change: bool) -> (r: FoldPlan)
        ensures
            r == fold_plan_spec(*self, may_hold_phase_change),
    {
        if may_hold_phase_change {
            FoldPlan::QueryBlock
        } else {
            FoldPlan::Refresh { fetch: self.refresh_fetch() }
        }
    }

    /// The warm path's first decision, from the new block's log summary.
    pub fn fold_plan(&self, logs_bloom: &Vec<u8>) -> (r: FoldPlan)
        requires
            logs_bloom@.len() == BLOOM_BYTES,
        ensures
            r == fold_plan_spec(*self, may_hold_phase_change(logs_bloom@, self.dapp_contract_address)),
    {
        let topic = uint_event_topic("PhaseChange", 8);
        let bloom = logs_bloom.as_slice();
        let may_hold_phase_change = bloom_contains(bloom, self.dapp_contract_address.bytes.as_slice())
            && bloom_contains(bloom, topic.as_slice());
        self.fold_plan_from(may_hold_phase_change)
    }

    /// Advances the state through a block that holds no phase change of this
    /// contract, from the snapshots that `refresh_fetch` asked for.
    pub fn fold_quiet(&self, sealed_epoch: Option<SealedEpochState>, current_epoch: AccumulatingEpoch) -> (r: Result<
        EpochState,
        EpochError,
    >)
        requires
            self.current_phase.kind_spec() != PhaseKind::InputAccumulation ==> sealed_epoch is Some,
        ensures
            r == fold_quiet_spec(*self, sealed_epoch, current_epoch),
            r is Err <==> (self.current_phase is AwaitingDispute
                && sealed_epoch.unwrap() is SealedEpochNoClaims),
            (self.current_phase is AwaitingDispute && sealed_epoch.unwrap() is SealedEpochNoClaims)
                ==> r == Err::<EpochState, EpochError>(
                EpochError::IllegalDisputeState {
                    sealed_epoch: sealed_epoch.unwrap()->sealed_epoch,
                },
            ),
            r matches Ok(s) ==> {
                &&& s.current_phase.kind_spec() == self.current_phase.kind_spec()
                &&& s.phase_change_timestamp == self.phase_change_timestamp
                &&& s.finalized_epochs == self.finalized_epochs
                &&& s.initial_epoch == self.initial_epoch
                &&& s.dapp_contract_address == self.dapp_contract_address
                &&& s.current_epoch == current_epoch
                &&& (self.current_phase matches ContractPhase::AwaitingConsensus { round_start, .. }
                    ==> s.current_phase == ContractPhase::AwaitingConsensus {
                    sealed_epoch: sealed_epoch.unwrap(),
                    round_start,
                })
            },
            (self.wf() && snapshots_fit(self.refresh_fetch_spec(), sealed_epoch, current_epoch)
                && r is Ok) ==> r.unwrap().wf(),
    {
        let current_phase = match &self.current_phase {
            ContractPhase::InputAccumulation {} => ContractPhase::InputAccumulation {},
            ContractPhase::AwaitingConsensus { round_start, .. } => ContractPhase::AwaitingConsensus {
                sealed_epoch: sealed_epoch.unwrap(),
                round_start: *round_start,
            },
            ContractPhase::AwaitingDispute { .. } => compose_phase(
                PhaseKind::AwaitingDispute,
                sealed_epoch,
                None,
            )?,
        };
        Ok(EpochState { current_phase, current_epoch, ..*self })
    }

    /// Which snapshots to read for a block whose phase-change events were
    /// read: `finalized` is the ledger at the block and `last_code` the code
    /// of the block's last event, if any.
    pub fn fold_query_plan(&self, finalized: &FinalizedEpochs, last_code: Option<u8>) -> (r: Result<
        Fetch,
        EpochError,
    >)
        requires
            last_code is Some ==> finalized.wf(),
        ensures
            r == fold_query_plan_spec(*self, *finalized, last_code),
            last_code is None ==> r == Ok::<Fetch, EpochError>(self.refresh_fetch_spec()),
    {
        match last_code {
            None => Ok(self.refresh_fetch()),
            Some(_) => EpochState::sync_plan(finalized, last_code),
        }
    }

    /// Advances the state through a block whose phase-change events were
    /// read: the ledger at the block, the code of the block's last event (if
    /// any), the block's timestamp, and the snapshots that `fold_query_plan`
    /// asked for. Without an event the block changes no phase, and the state
    /// advances as through a block that the log summary rules out; the ledger
    /// is then kept, as it only moves with a phase change.
    pub fn fold(
        &self,
        finalized_epochs: FinalizedEpochs,
        last_code: Option<u8>,
        block_timestamp: u64,
        sealed_epoch: Option<SealedEpochState>,
        current_epoch: AccumulatingEpoch,
    ) -> (r: Result<EpochState, EpochError>)
        requires
            (if last_code is None {
                self.current_phase.kind_spec() != PhaseKind::InputAccumulation
            } else {
                phase_kind_of(last_code) matches Ok(kind) && kind != PhaseKind::InputAccumulation
            }) ==> sealed_epoch is Some,
        ensures
            r == fold_spec(
                *self,
                finalized_epochs,
                last_code,
                block_timestamp,
                sealed_epoch,
                current_epoch,
            ),
            last_code is None ==> r == fold_quiet_spec(*self, sealed_epoch, current_epoch),
            r is Ok <==> (if last_code is None {
                !(self.current_phase is AwaitingDispute
                    && sealed_epoch.unwrap() is SealedEpochNoClaims)
            } else {
                phase_kind_of(last_code) matches Ok(kind) && !(kind == PhaseKind::AwaitingDispute
                    && sealed_epoch.unwrap() is SealedEpochNoClaims)
            }),
            ((last_code == Some(2u8) || (last_code is None && self.current_phase is AwaitingDispute))
                && sealed_epoch.unwrap() is SealedEpochNoClaims) ==> r == Err::<
                EpochState,
                EpochError,
            >(EpochError::IllegalDisputeState { sealed_epoch: sealed_epoch.unwrap()->sealed_epoch }),
            r matches Ok(s) ==> s.phase_change_timestamp == (if last_code is Some {
                Some(block_timestamp)
            } else {
                self.phase_change_timestamp
            }),
            (last_code is None && r is Ok) ==> {
                &&& r.unwrap().current_phase.kind_spec() == self.current_phase.kind_spec()
                &&& r.unwrap().finalized_epochs == self.finalized_epochs
            },
            ((if last_code is None {
                self.wf()
            } else {
                finalized_epochs.wf()
            }) && fold_query_plan_spec(*self, finalized_epochs, last_code) is Ok && snapshots_fit(
                fold_query_plan_spec(*self, finalized_epochs, last_code).unwrap(),
                sealed_epoch,
                current_epoch,
            ) && r is Ok) ==> r.unwrap().wf(),
    {
        if last_code.is_none() {
            return self.fold_quiet(sealed_epoch, current_epoch);
        }
        let kind = PhaseKind::from_code(last_code)?;
        let current_phase = compose_phase(kind, sealed_epoch, Some(block_timestamp))?;
        Ok(
            EpochState {
                initial_epoch: self.initial_epoch,
                current_phase,
                finalized_epochs,
                current_epoch,
                phase_change_timestamp: Some(block_timestamp),
                dapp_contract_address: self.dapp_contract_address,
            },
        )
    }
}

} // verus!
