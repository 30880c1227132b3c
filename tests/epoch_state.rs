use eth_state_fold_types::ethabi::{long_signature, ParamType};
use eth_state_fold_types::ethereum_types::{Bloom, BloomInput};
use rollup_epoch::epoch::{EpochState, FoldPlan};
use rollup_epoch::phase::{ContractPhase, EpochError, Fetch, PhaseChange, PhaseKind};
use rollup_epoch::snapshot::{
    AccumulatingEpoch, Address, EpochWithClaims, FinalizedEpochs, SealedEpochState,
};

const DAPP: [u8; 20] = [0x11; 20];

fn address() -> Address {
    Address { bytes: DAPP }
}

fn ledger(initial_epoch: u64, finalized_count: u64) -> FinalizedEpochs {
    FinalizedEpochs { initial_epoch, finalized_count }
}

fn open_epoch(epoch_number: u64, input_count: u64) -> AccumulatingEpoch {
    AccumulatingEpoch { epoch_number, input_count }
}

fn no_claims(epoch_number: u64) -> SealedEpochState {
    SealedEpochState::SealedEpochNoClaims { sealed_epoch: open_epoch(epoch_number, 3) }
}

fn with_claims(epoch_number: u64) -> SealedEpochState {
    SealedEpochState::SealedEpochWithClaims {
        claimed_epoch: EpochWithClaims { epoch_number, input_count: 3, claim_count: 1 },
    }
}

fn bloom_of(items: &[&[u8]]) -> Vec<u8> {
    let mut bloom = Bloom::default();
    for item in items {
        bloom.accrue(BloomInput::Raw(item));
    }
    bloom.as_bytes().to_vec()
}

fn phase_change_topic() -> Vec<u8> {
    long_signature("PhaseChange", &[ParamType::Uint(8)]).as_bytes().to_vec()
}

/// Cold rebuild at a block with no phase change ever: accumulation of epoch 0.
fn genesis() -> EpochState {
    let finalized = ledger(0, 0);
    let fetch = EpochState::sync_plan(&finalized, None).unwrap();
    assert_eq!(fetch, Fetch { sealed_epoch: None, accumulating_epoch: 0 });
    EpochState::sync((address(), 0), finalized, None, None, open_epoch(0, 2)).unwrap()
}

#[test]
fn genesis_to_first_seal() {
    let state = genesis();
    assert_eq!(state.current_phase, ContractPhase::InputAccumulation {});
    assert_eq!(state.current_epoch.epoch_number, 0);
    assert_eq!(state.finalized_epochs.next_epoch(), 0);
    assert_eq!(state.phase_change_timestamp, None);

    // block 101 emits a phase change to code 1 at timestamp 1_700_000_101
    let t = 1_700_000_101;
    let bloom = bloom_of(&[&DAPP, &phase_change_topic()]);
    assert_eq!(state.fold_plan(&bloom), FoldPlan::QueryBlock);
    let finalized = ledger(0, 0);
    let fetch = EpochState::sync_plan(&finalized, Some(1)).unwrap();
    assert_eq!(fetch, Fetch { sealed_epoch: Some(0), accumulating_epoch: 1 });
    let next = state
        .fold(finalized, Some(1), t, Some(no_claims(0)), open_epoch(1, 0))
        .unwrap();
    assert_eq!(
        next.current_phase,
        ContractPhase::AwaitingConsensus { sealed_epoch: no_claims(0), round_start: t }
    );
    assert_eq!(next.current_epoch.epoch_number, 1);
    assert_eq!(next.phase_change_timestamp, Some(t));
    assert_eq!(next.dapp_contract_address, address());
}

#[test]
fn warm_advance_equals_cold_rebuild() {
    let t = 500;
    let cold = EpochState::sync(
        (address(), 0),
        ledger(0, 0),
        Some(PhaseChange { new_phase: 1, timestamp: t }),
        Some(no_claims(0)),
        open_epoch(1, 0),
    )
    .unwrap();
    let warm = genesis()
        .fold(ledger(0, 0), Some(1), t, Some(no_claims(0)), open_epoch(1, 0))
        .unwrap();
    assert_eq!(warm, cold);

    // a later quiet block: both paths read the same snapshots
    let quiet = warm.fold_quiet(Some(with_claims(0)), open_epoch(1, 4)).unwrap();
    let cold_later = EpochState::sync(
        (address(), 0),
        ledger(0, 0),
        Some(PhaseChange { new_phase: 1, timestamp: t }),
        Some(with_claims(0)),
        open_epoch(1, 4),
    )
    .unwrap();
    assert_eq!(quiet, cold_later);
}

#[test]
fn illegal_dispute_fails_on_both_paths() {
    let expected = EpochError::IllegalDisputeState { sealed_epoch: open_epoch(0, 3) };
    let cold = EpochState::sync(
        (address(), 0),
        ledger(0, 0),
        Some(PhaseChange { new_phase: 2, timestamp: 9 }),
        Some(no_claims(0)),
        open_epoch(1, 0),
    );
    assert_eq!(cold, Err(expected));

    let warm = genesis().fold(ledger(0, 0), Some(2), 9, Some(no_claims(0)), open_epoch(1, 0));
    assert_eq!(warm, Err(expected));
}

#[test]
fn dispute_without_claims_on_quiet_block_fails() {
    let disputed = EpochState::sync(
        (address(), 0),
        ledger(0, 0),
        Some(PhaseChange { new_phase: 2, timestamp: 9 }),
        Some(with_claims(0)),
        open_epoch(1, 0),
    )
    .unwrap();
    assert_eq!(
        disputed.current_phase,
        ContractPhase::AwaitingDispute {
            sealed_epoch: EpochWithClaims { epoch_number: 0, input_count: 3, claim_count: 1 }
        }
    );
    assert_eq!(
        disputed.fold_quiet(Some(no_claims(0)), open_epoch(1, 0)),
        Err(EpochError::IllegalDisputeState { sealed_epoch: open_epoch(0, 3) })
    );
}

#[test]
fn unrecognized_code_fails_on_both_paths() {
    let expected = EpochError::UnknownPhaseCode { new_phase: 7 };
    assert_eq!(EpochState::sync_plan(&ledger(0, 0), Some(7)), Err(expected));
    assert_eq!(PhaseKind::from_code(Some(7)), Err(expected));
    let cold = EpochState::sync(
        (address(), 0),
        ledger(0, 0),
        Some(PhaseChange { new_phase: 7, timestamp: 9 }),
        None,
        open_epoch(0, 0),
    );
    assert_eq!(cold, Err(expected));
    let warm = genesis().fold(ledger(0, 0), Some(7), 9, None, open_epoch(0, 0));
    assert_eq!(warm, Err(expected));
}

#[test]
fn open_epochs_follow_the_ledger() {
    let finalized = ledger(5, 3);
    assert_eq!(finalized.next_epoch(), 8);
    assert_eq!(
        EpochState::sync_plan(&finalized, Some(0)),
        Ok(Fetch { sealed_epoch: None, accumulating_epoch: 8 })
    );
    assert_eq!(
        EpochState::sync_plan(&finalized, Some(2)),
        Ok(Fetch { sealed_epoch: Some(8), accumulating_epoch: 9 })
    );
    let state = EpochState::sync(
        (address(), 5),
        finalized,
        Some(PhaseChange { new_phase: 1, timestamp: 40 }),
        Some(with_claims(8)),
        open_epoch(9, 0),
    )
    .unwrap();
    assert_eq!(state.current_phase.sealed_number(), Some(8));
    assert_eq!(state.current_epoch.epoch_number, state.finalized_epochs.next_epoch() + 1);
    assert_eq!(state.initial_epoch, 5);
}

#[test]
fn timestamp_kept_without_events_and_moved_by_one() {
    let sealed = genesis()
        .fold(ledger(0, 0), Some(1), 100, Some(no_claims(0)), open_epoch(1, 0))
        .unwrap();
    // a block read for events that holds none keeps the timestamp
    let empty = sealed.fold(ledger(0, 0), None, 200, Some(with_claims(0)), open_epoch(1, 2)).unwrap();
    assert_eq!(empty.phase_change_timestamp, Some(100));
    // finalization: code 0 at a later block
    let finalized = sealed.fold(ledger(0, 1), Some(0), 300, None, open_epoch(1, 0)).unwrap();
    assert_eq!(finalized.phase_change_timestamp, Some(300));
    assert_eq!(finalized.current_phase, ContractPhase::InputAccumulation {});
    assert_eq!(finalized.finalized_epochs.next_epoch(), 1);
}

#[test]
fn false_alarm_keeps_sealed_phase() {
    let sealed = genesis()
        .fold(ledger(0, 0), Some(1), 100, Some(no_claims(0)), open_epoch(1, 0))
        .unwrap();
    // the summary reports the address and the topic, but the block holds no
    // phase change of this contract
    let bloom = bloom_of(&[&DAPP, &phase_change_topic()]);
    assert_eq!(sealed.fold_plan(&bloom), FoldPlan::QueryBlock);
    let fetch = sealed.fold_query_plan(&ledger(0, 0), None).unwrap();
    assert_eq!(fetch, Fetch { sealed_epoch: Some(0), accumulating_epoch: 1 });
    let warm = sealed
        .fold(ledger(0, 0), None, 200, Some(with_claims(0)), open_epoch(1, 5))
        .unwrap();
    assert_eq!(
        warm.current_phase,
        ContractPhase::AwaitingConsensus { sealed_epoch: with_claims(0), round_start: 100 }
    );
    assert_eq!(warm.current_epoch, open_epoch(1, 5));
    assert_eq!(warm.phase_change_timestamp, Some(100));
    // the same as a rebuild at that block
    let cold = EpochState::sync(
        (address(), 0),
        ledger(0, 0),
        Some(PhaseChange { new_phase: 1, timestamp: 100 }),
        Some(with_claims(0)),
        open_epoch(1, 5),
    )
    .unwrap();
    assert_eq!(warm, cold);
    // and the same as a block that the summary rules out
    assert_eq!(sealed.fold_quiet(Some(with_claims(0)), open_epoch(1, 5)), Ok(warm));
}

#[test]
fn false_alarm_in_dispute_without_claims_fails() {
    let disputed = genesis()
        .fold(ledger(0, 0), Some(2), 100, Some(with_claims(0)), open_epoch(1, 0))
        .unwrap();
    assert_eq!(
        disputed.fold(ledger(0, 0), None, 200, Some(no_claims(0)), open_epoch(1, 0)),
        Err(EpochError::IllegalDisputeState { sealed_epoch: open_epoch(0, 3) })
    );
}

#[test]
fn quiet_block_keeps_phase_and_round_start() {
    let sealed = genesis()
        .fold(ledger(0, 0), Some(1), 100, Some(no_claims(0)), open_epoch(1, 0))
        .unwrap();
    let plan = sealed.fold_plan(&bloom_of(&[]));
    assert_eq!(
        plan,
        FoldPlan::Refresh { fetch: Fetch { sealed_epoch: Some(0), accumulating_epoch: 1 } }
    );
    let next = sealed.fold_quiet(Some(with_claims(0)), open_epoch(1, 7)).unwrap();
    assert_eq!(
        next.current_phase,
        ContractPhase::AwaitingConsensus { sealed_epoch: with_claims(0), round_start: 100 }
    );
    assert_eq!(next.phase_change_timestamp, Some(100));
    assert_eq!(next.current_epoch, open_epoch(1, 7));
    assert_eq!(next.finalized_epochs, ledger(0, 0));
}

#[test]
fn bloom_needs_both_address_and_topic() {
    let state = genesis();
    let topic = phase_change_topic();
    assert_eq!(topic.len(), 32);
    let refresh = FoldPlan::Refresh { fetch: Fetch { sealed_epoch: None, accumulating_epoch: 0 } };
    assert_eq!(state.fold_plan(&bloom_of(&[&DAPP])), refresh);
    assert_eq!(state.fold_plan(&bloom_of(&[&topic])), refresh);
    assert_eq!(state.fold_plan(&bloom_of(&[&[0x22; 20], &topic])), refresh);
    assert_eq!(state.fold_plan(&bloom_of(&[&DAPP, &topic])), FoldPlan::QueryBlock);
    assert_eq!(state.fold_plan_from(true), FoldPlan::QueryBlock);
    assert_eq!(state.fold_plan_from(false), refresh);
}

#[test]
fn decoding_of_phase_codes() {
    assert_eq!(PhaseKind::from_code(None), Ok(PhaseKind::InputAccumulation));
    assert_eq!(PhaseKind::from_code(Some(0)), Ok(PhaseKind::InputAccumulation));
    assert_eq!(PhaseKind::from_code(Some(1)), Ok(PhaseKind::AwaitingConsensus));
    assert_eq!(PhaseKind::from_code(Some(2)), Ok(PhaseKind::AwaitingDispute));
    assert_eq!(
        PhaseKind::from_code(Some(255)),
        Err(EpochError::UnknownPhaseCode { new_phase: 255 })
    );
    assert_eq!(with_claims(4).epoch_number(), 4);
    assert_eq!(no_claims(6).epoch_number(), 6);
}
