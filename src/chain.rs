//! A model of one contract instance's chain, block by block, and the laws
//! that relate rebuilding a state at a block to advancing one block by block.

use vstd::prelude::*;
use crate::epoch::{
    code_of, fold_plan_spec, fold_query_plan_spec, fold_quiet_spec, fold_spec, sync_plan_spec,
    sync_spec, EpochState, FoldPlan,
};
use crate::phase::{ContractPhase, EpochError, Fetch, PhaseChange};
use crate::snapshot::{AccumulatingEpoch, Address, FinalizedEpochs, SealedEpochState};

verus! {

/// What the chain shows of one contract instance at each block number.
pub struct Chain {
    /// The codes of the phase-change events emitted in a block, in order.
    pub codes: spec_fn(nat) -> Seq<u8>,
    /// A block's timestamp.
    pub timestamp: spec_fn(nat) -> u64,
    /// Whether a block's log summary may hold a phase change of the contract.
    pub bloom_hit: spec_fn(nat) -> bool,
    /// The finalized-epoch ledger of a lineage (by initial epoch) at a block.
    pub finalized: spec_fn(u64, nat) -> FinalizedEpochs,
    /// The accumulating-epoch tracker's snapshot of an epoch at a block.
    pub accumulating: spec_fn(u64, nat) -> AccumulatingEpoch,
    /// The sealed-epoch tracker's snapshot of an epoch at a block.
    pub sealed: spec_fn(u64, nat) -> SealedEpochState,
}

impl Chain {
    /// The last phase-change event at or before block `b`: its code and its
    /// block.
    pub open spec fn last_event_upto(self, b: nat) -> Option<(u8, nat)>
        decreases b,
    {
        if (self.codes)(b).len() > 0 {
            Some(((self.codes)(b).last(), b))
        } else if b == 0 {
            None
        } else {
            self.last_event_upto((b - 1) as nat)
        }
    }

    pub open spec fn last_event_at(self, b: nat) -> Option<PhaseChange> {
        match self.last_event_upto(b) {
            Some((code, block)) => Some(
                PhaseChange { new_phase: code, timestamp: (self.timestamp)(block) },
            ),
            None => None,
        }
    }

    /// The code of the last phase-change event in block `b` alone.
    pub open spec fn last_code_in(self, b: nat) -> Option<u8> {
        if (self.codes)(b).len() > 0 {
            Some((self.codes)(b).last())
        } else {
            None
        }
    }

    pub open spec fn sealed_for(self, fetch: Fetch, b: nat) -> Option<SealedEpochState> {
        match fetch.sealed_epoch {
            Some(e) => Some((self.sealed)(e, b)),
            None => None,
        }
    }

    /// The cold rebuild at block `b`, with every read answered by the chain.
    pub open spec fn cold(self, address: Address, initial_epoch: u64, b: nat) -> Result<
        EpochState,
        EpochError,
    > {
        let finalized = (self.finalized)(initial_epoch, b);
        let last_event = self.last_event_at(b);
        match sync_plan_spec(finalized, code_of(last_event)) {
            Err(e) => Err(e),
            Ok(f) => sync_spec(
                address,
                initial_epoch,
                finalized,
                last_event,
                self.sealed_for(f, b),
                (self.accumulating)(f.accumulating_epoch, b),
            ),
        }
    }

    /// The warm advance of `previous` to block `b`.
    pub open spec fn warm(self, previous: EpochState, b: nat) -> Result<EpochState, EpochError> {
        match fold_plan_spec(previous, (self.bloom_hit)(b)) {
            FoldPlan::Refresh { fetch } => fold_quiet_spec(
                previous,
                self.sealed_for(fetch, b),
                (self.accumulating)(fetch.accumulating_epoch, b),
            ),
            FoldPlan::QueryBlock => {
                let finalized = (self.finalized)(previous.initial_epoch, b);
                let code = self.last_code_in(b);
                match fold_query_plan_spec(previous, finalized, code) {
                    Err(e) => Err(e),
                    Ok(f) => fold_spec(
                        previous,
                        finalized,
                        code,
                        (self.timestamp)(b),
                        self.sealed_for(f, b),
                        (self.accumulating)(f.accumulating_epoch, b),
                    ),
                }
            },
        }
    }

    /// `n` warm advances from the state at block `from`, stopping at the
    /// first failure.
    pub open spec fn advance(self, start: Result<EpochState, EpochError>, from: nat, n: nat) -> Result<
        EpochState,
        EpochError,
    >
        decreases n,
    {
        if n == 0 {
            start
        } else {
            match self.advance(start, from, (n - 1) as nat) {
                Ok(s) => self.warm(s, from + n),
                Err(e) => Err(e),
            }
        }
    }

    /// What the chain of a real contract instance guarantees: ledgers leave
    /// room for the next two epoch numbers, snapshots carry the epoch they
    /// were asked for, a log summary never misses a phase change, and the
    /// ledger only moves in a block with a phase change.
    pub open spec fn consistent(self, initial_epoch: u64) -> bool {
        &&& forall|b: nat| #[trigger] ((self.finalized)(initial_epoch, b)).wf()
        &&& forall|e: u64, b: nat| #[trigger] ((self.accumulating)(e, b)).epoch_number == e
        &&& forall|e: u64, b: nat| #[trigger] ((self.sealed)(e, b)).epoch_number_spec() == e
        &&& forall|b: nat| #[trigger] (self.codes)(b).len() > 0 ==> (self.bloom_hit)(b)
        &&& forall|b: nat|
            b > 0 && #[trigger] (self.codes)(b).len() == 0 ==> (self.finalized)(initial_epoch, b)
                == (self.finalized)(initial_epoch, (b - 1) as nat)
    }

}

/// Advancing the state rebuilt at the block before `b` by block `b` gives the
/// state rebuilt at `b`.
pub proof fn lemma_warm_matches_cold(chain: Chain, address: Address, initial_epoch: u64, b: nat)
    requires
        chain.consistent(initial_epoch),
        b > 0,
        chain.cold(address, initial_epoch, (b - 1) as nat) is Ok,
    ensures
        chain.warm(chain.cold(address, initial_epoch, (b - 1) as nat).unwrap(), b) == chain.cold(
            address,
            initial_epoch,
            b,
        ),
{
    let prev_b = (b - 1) as nat;
    let s = chain.cold(address, initial_epoch, prev_b).unwrap();
    let fin0 = (chain.finalized)(initial_epoch, prev_b);
    let fin1 = (chain.finalized)(initial_epoch, b);
    assert(fin0.wf());
    assert(fin1.wf());
    if (chain.codes)(b).len() == 0 {
        assert(fin1 == fin0);
        assert(chain.last_event_upto(b) == chain.last_event_upto(prev_b));
        let f = sync_plan_spec(fin0, code_of(chain.last_event_at(prev_b))).unwrap();
        if let Some(e) = f.sealed_epoch {
            assert(((chain.sealed)(e, prev_b)).epoch_number_spec() == e);
        }
        assert(((chain.accumulating)(f.accumulating_epoch, prev_b)).epoch_number
            == f.accumulating_epoch);
    } else {
        assert((chain.bloom_hit)(b));
    }
}

/// Advancing the state rebuilt at block `b0` block by block, `n` times, gives
/// the state rebuilt at `b0 + n`, as long as each intermediate rebuild
/// succeeds.
pub proof fn lemma_advance_matches_cold(
    chain: Chain,
    address: Address,
    initial_epoch: u64,
    b0: nat,
    n: nat,
)
    requires
        chain.consistent(initial_epoch),
        forall|i: nat|
            i < n ==> #[trigger] chain.cold(address, initial_epoch, b0 + i) is Ok,
    ensures
        chain.advance(chain.cold(address, initial_epoch, b0), b0, n) == chain.cold(
            address,
            initial_epoch,
            b0 + n,
        ),
    decreases n,
{
    if n > 0 {
        let m = (n - 1) as nat;
        lemma_advance_matches_cold(chain, address, initial_epoch, b0, m);
        assert(chain.cold(address, initial_epoch, b0 + m) is Ok);
        assert((b0 + n - 1) as nat == b0 + m);
        lemma_warm_matches_cold(chain, address, initial_epoch, b0 + n);
    }
}

/// Every state rebuilt at a block has the open epochs that its phase calls
/// for: the ledger's next epoch alone in accumulation, else that epoch sealed
/// and the one after it accumulating.
pub proof fn lemma_cold_well_formed(chain: Chain, address: Address, initial_epoch: u64, b: nat)
    requires
        chain.consistent(initial_epoch),
    ensures
        chain.cold(address, initial_epoch, b) matches Ok(s) ==> s.wf() && s.initial_epoch
            == initial_epoch,
{
    let fin = (chain.finalized)(initial_epoch, b);
    assert(fin.wf());
    if let Ok(f) = sync_plan_spec(fin, code_of(chain.last_event_at(b))) {
        if let Some(e) = f.sealed_epoch {
            assert(((chain.sealed)(e, b)).epoch_number_spec() == e);
        }
        assert(((chain.accumulating)(f.accumulating_epoch, b)).epoch_number
            == f.accumulating_epoch);
    }
}

/// Advancing a well-formed state by one block gives a well-formed state.
pub proof fn lemma_warm_well_formed(chain: Chain, previous: EpochState, b: nat)
    requires
        chain.consistent(previous.initial_epoch),
        previous.wf(),
    ensures
        chain.warm(previous, b) matches Ok(s) ==> s.wf() && s.initial_epoch
            == previous.initial_epoch,
{
    match fold_plan_spec(previous, (chain.bloom_hit)(b)) {
        FoldPlan::Refresh { fetch } => {
            if let Some(e) = fetch.sealed_epoch {
                assert(((chain.sealed)(e, b)).epoch_number_spec() == e);
            }
            assert(((chain.accumulating)(fetch.accumulating_epoch, b)).epoch_number
                == fetch.accumulating_epoch);
        },
        FoldPlan::QueryBlock => {
            let fin = (chain.finalized)(previous.initial_epoch, b);
            assert(fin.wf());
            if let Ok(f) = fold_query_plan_spec(previous, fin, chain.last_code_in(b)) {
                if let Some(e) = f.sealed_epoch {
                    assert(((chain.sealed)(e, b)).epoch_number_spec() == e);
                }
                assert(((chain.accumulating)(f.accumulating_epoch, b)).epoch_number
                    == f.accumulating_epoch);
            }
        },
    }
}

/// No phase-change event at or before block `b` exactly when none is found
/// looking back from `b`.
pub proof fn lemma_no_event_upto(chain: Chain, b: nat)
    ensures
        chain.last_event_upto(b) is None <==> forall|k: nat|
            k <= b ==> #[trigger] (chain.codes)(k).len() == 0,
    decreases b,
{
    if b > 0 {
        lemma_no_event_upto(chain, (b - 1) as nat);
        if chain.last_event_upto(b) is None {
            assert forall|k: nat| k <= b implies #[trigger] (chain.codes)(k).len() == 0 by {
                if k < b {
                    assert(k <= (b - 1) as nat);
                }
            }
        }
    }
}

/// The rebuilt state's phase-change timestamp is that of the block of the
/// last phase-change event, and is absent only where no such event happened
/// at or before the block.
pub proof fn lemma_cold_timestamp(chain: Chain, address: Address, initial_epoch: u64, b: nat)
    ensures
        chain.cold(address, initial_epoch, b) matches Ok(s) ==> {
            &&& s.phase_change_timestamp == match chain.last_event_upto(b) {
                Some((_, block)) => Some((chain.timestamp)(block)),
                None => None,
            }
            &&& (s.phase_change_timestamp is None <==> forall|k: nat|
                k <= b ==> #[trigger] (chain.codes)(k).len() == 0)
        },
{
    lemma_no_event_upto(chain, b);
}

/// Advancing by one block keeps the phase-change timestamp, unless the block
/// holds a phase change: then it becomes that block's timestamp. So once
/// present it never goes away.
pub proof fn lemma_warm_timestamp(chain: Chain, previous: EpochState, b: nat)
    requires
        chain.consistent(previous.initial_epoch),
    ensures
        chain.warm(previous, b) matches Ok(s) ==> {
            &&& (chain.codes)(b).len() > 0 ==> s.phase_change_timestamp == Some(
                (chain.timestamp)(b),
            )
            &&& (chain.codes)(b).len() == 0 ==> s.phase_change_timestamp
                == previous.phase_change_timestamp
            &&& previous.phase_change_timestamp is Some ==> s.phase_change_timestamp is Some
        },
{
    assert((chain.codes)(b).len() > 0 ==> (chain.bloom_hit)(b));
}

/// Where the log summary rules out a phase change, the advanced state keeps
/// the phase, its round start and the phase-change timestamp, and carries
/// the snapshots read afresh at the new block.
pub proof fn lemma_quiet_block(chain: Chain, previous: EpochState, b: nat)
    requires
        !(chain.bloom_hit)(b),
    ensures
        chain.warm(previous, b) matches Ok(s) ==> {
            &&& s.current_phase.kind_spec() == previous.current_phase.kind_spec()
            &&& s.phase_change_timestamp == previous.phase_change_timestamp
            &&& s.finalized_epochs == previous.finalized_epochs
            &&& s.current_epoch == (chain.accumulating)(previous.current_epoch.epoch_number, b)
            &&& (previous.current_phase matches ContractPhase::AwaitingConsensus {
                sealed_epoch,
                round_start,
            } ==> s.current_phase == ContractPhase::AwaitingConsensus {
                sealed_epoch: (chain.sealed)(sealed_epoch.epoch_number_spec(), b),
                round_start,
            })
            &&& (previous.current_phase matches ContractPhase::AwaitingDispute { sealed_epoch }
                ==> s.current_phase == ContractPhase::AwaitingDispute {
                sealed_epoch: (chain.sealed)(sealed_epoch.epoch_number, b)->claimed_epoch,
            })
        },
{
}

/// A block without a phase change of the contract leaves the phase, the
/// ledger, the phase-change timestamp and the open epoch numbers as they
/// were, whatever the block's log summary reports: a false alarm is
/// harmless.
pub proof fn lemma_block_without_phase_change(chain: Chain, previous: EpochState, b: nat)
    requires
        chain.consistent(previous.initial_epoch),
        (chain.codes)(b).len() == 0,
    ensures
        chain.warm(previous, b) matches Ok(s) ==> {
            &&& s.current_phase.kind_spec() == previous.current_phase.kind_spec()
            &&& s.current_phase.sealed_number_spec() == previous.current_phase.sealed_number_spec()
            &&& s.finalized_epochs == previous.finalized_epochs
            &&& s.phase_change_timestamp == previous.phase_change_timestamp
            &&& s.current_epoch.epoch_number == previous.current_epoch.epoch_number
        },
{
    let f = previous.refresh_fetch_spec();
    if let Some(e) = f.sealed_epoch {
        assert(((chain.sealed)(e, b)).epoch_number_spec() == e);
    }
    assert(((chain.accumulating)(f.accumulating_epoch, b)).epoch_number == f.accumulating_epoch);
}

} // verus!
