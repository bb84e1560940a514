//! Views of disputes that read the storage as little as possible.
//!
//! A view loads a record once and answers everything else from memory. Each
//! function states which keys it reads, in order: that is its storage cost.
//!
//! | Helper                            | Storage reads |
//! |-----------------------------------|---------------|
//! | `CachedDisputeView::load`         | 1             |
//! | `get_dispute_summary_batch`       | 1 for each id |
//! | `get_dispute_with_parties_cached` | 2             |

use soroban_sdk::{Address, Env, Symbol};
use vstd::prelude::*;

use crate::dispute::contract::DisputeContract;
use crate::dispute::host::{host_calls, performed, storage};
use crate::dispute::types::{DataKey, Dispute, DisputeOutcome, DisputeStatus, HostCall, Storage};
use crate::sdk::{addresses_of, symbol_at, symbol_count, symbol_items, symbols_among};

verus! {

/// A dispute that was read from storage once.
///
/// All field accesses are in memory.
pub struct CachedDisputeView {
    dispute: Dispute,
}

impl View for CachedDisputeView {
    type V = Dispute;

    closed spec fn view(&self) -> Dispute {
        self.dispute
    }
}

impl CachedDisputeView {
    /// Load a dispute from storage. Reads once.
    pub fn load(env: &mut Env, id: Symbol) -> (view: Option<Self>)
        ensures
            performed(
                *old(env),
                *final(env),
                seq![HostCall::Read(DataKey::Dispute(id))],
                storage(*old(env)),
            ),
            match view {
                Some(view) => storage(*old(env)).dispute(id) == Some(view@),
                None => storage(*old(env)).dispute(id) is None,
            },
    {
        match DisputeContract::find_dispute(env, &id) {
            Some(dispute) => Some(CachedDisputeView { dispute }),
            None => None,
        }
    }

    /// Current lifecycle status.
    pub fn status(&self) -> (status: DisputeStatus)
        ensures
            status == self@.status,
    {
        self.dispute.status
    }

    /// Arbitrator's recorded outcome.
    pub fn outcome(&self) -> (outcome: DisputeOutcome)
        ensures
            outcome == self@.outcome,
    {
        self.dispute.outcome
    }

    /// Whether the dispute is in a decidable phase (`Open` or `Evidence`).
    pub fn is_decidable(&self) -> (decidable: bool)
        ensures
            decidable == self@.status.undecided(),
    {
        self.dispute.is_undecided()
    }

    /// Whether the dispute has been settled.
    pub fn is_settled(&self) -> (settled: bool)
        ensures
            settled == (self@.status == DisputeStatus::Settled),
    {
        self.dispute.status == DisputeStatus::Settled
    }

    /// Whether the dispute is decided but not yet settled.
    pub fn is_pending_settlement(&self) -> (pending: bool)
        ensures
            pending == (self@.status == DisputeStatus::Decided),
    {
        self.dispute.status == DisputeStatus::Decided
    }

    /// Whether the disputer has submitted evidence.
    pub fn has_disputer_evidence(&self) -> (submitted: bool)
        ensures
            submitted == (self@.disputer_evidence is Some),
    {
        self.dispute.disputer_evidence.is_some()
    }

    /// Whether the respondent has submitted evidence.
    pub fn has_respondent_evidence(&self) -> (submitted: bool)
        ensures
            submitted == (self@.respondent_evidence is Some),
    {
        self.dispute.respondent_evidence.is_some()
    }

    /// Whether both parties have submitted evidence.
    pub fn both_parties_submitted(&self) -> (submitted: bool)
        ensures
            submitted == both_submitted(self@),
    {
        self.has_disputer_evidence() && self.has_respondent_evidence()
    }

    /// The locked amount.
    pub fn amount(&self) -> (amount: i128)
        ensures
            amount == self@.amount,
    {
        self.dispute.amount
    }

    /// The respondent split in basis points (only meaningful for the `Split` outcome).
    pub fn split_bps(&self) -> (split_bps: u32)
        ensures
            split_bps == self@.split_bps,
    {
        self.dispute.split_bps
    }

    /// Timestamp when the dispute was filed.
    pub fn filed_at(&self) -> (filed_at: u64)
        ensures
            filed_at == self@.filed_at,
    {
        self.dispute.filed_at
    }

    /// Timestamp when the dispute was settled (0 if not settled).
    pub fn settled_at(&self) -> (settled_at: u64)
        ensures
            settled_at == self@.settled_at,
    {
        self.dispute.settled_at
    }

    /// Consume the view and return the underlying `Dispute`.
    pub fn into_dispute(self) -> (dispute: Dispute)
        ensures
            dispute == self@,
    {
        self.dispute
    }

    /// Borrow the underlying `Dispute`.
    pub fn dispute(&self) -> (dispute: &Dispute)
        ensures
            *dispute == self@,
    {
        &self.dispute
    }
}

/// A compact summary of a single dispute.
pub struct DisputeSummary {
    /// Dispute identifier.
    pub id: Symbol,
    /// Current lifecycle status.
    pub status: DisputeStatus,
    /// Locked amount.
    pub amount: i128,
    /// Arbitrator's recorded outcome.
    pub outcome: DisputeOutcome,
    /// Whether both parties have submitted evidence.
    pub both_evidence_submitted: bool,
    /// Timestamp when filed.
    pub filed_at: u64,
}

impl Clone for DisputeSummary {
    fn clone(&self) -> (copy: Self)
        ensures
            copy == *self,
    {
        DisputeSummary {
            id: self.id.clone(),
            status: self.status,
            amount: self.amount,
            outcome: self.outcome,
            both_evidence_submitted: self.both_evidence_submitted,
            filed_at: self.filed_at,
        }
    }
}

/// Whether both parties have submitted evidence.
pub open spec fn both_submitted(dispute: Dispute) -> bool {
    dispute.disputer_evidence is Some && dispute.respondent_evidence is Some
}

/// The summary of a dispute that is stored under an id.
pub open spec fn summary_of(id: Symbol, dispute: Dispute) -> DisputeSummary {
    DisputeSummary {
        id,
        status: dispute.status,
        amount: dispute.amount,
        outcome: dispute.outcome,
        both_evidence_submitted: both_submitted(dispute),
        filed_at: dispute.filed_at,
    }
}

/// The summary of what is stored under an id, if a dispute is.
pub open spec fn summary_at(stored: Storage, id: Symbol) -> Option<DisputeSummary> {
    match stored.dispute(id) {
        Some(dispute) => Some(summary_of(id, dispute)),
        None => None,
    }
}

/// The summaries of the ids under which disputes are stored, in order.
pub open spec fn summaries_of(stored: Storage, ids: Seq<Symbol>) -> Seq<DisputeSummary> {
    ids.filter_map(|id: Symbol| summary_at(stored, id))
}

/// One read for each id, in order.
pub open spec fn dispute_reads(ids: Seq<Symbol>) -> Seq<HostCall> {
    ids.map_values(|id: Symbol| HostCall::Read(DataKey::Dispute(id)))
}

/// Return summaries for a list of dispute ids. Missing ids are skipped. Reads
/// once for each id. An item of the list that is no symbol is no id: it is
/// skipped without a read.
pub fn get_dispute_summary_batch(env: &mut Env, ids: soroban_sdk::Vec<Symbol>) -> (summaries: Vec<
    DisputeSummary,
>)
    ensures
        performed(
            *old(env),
            *final(env),
            dispute_reads(symbols_among(symbol_items(ids))),
            storage(*old(env)),
        ),
        summaries@ == summaries_of(storage(*old(env)), symbols_among(symbol_items(ids))),
{
    let ghost stored = storage(*env);
    let ghost calls = host_calls(*env);
    let ghost items = symbol_items(ids);
    let mut summaries: Vec<DisputeSummary> = Vec::new();
    let count: u32 = symbol_count(&ids);
    let mut index: u32 = 0;
    assert(calls =~= calls + dispute_reads(symbols_among(items.take(0))));
    while index < count
        invariant
            index <= count,
            count == items.len(),
            items == symbol_items(ids),
            stored == storage(*old(env)),
            performed(
                *old(env),
                *env,
                dispute_reads(symbols_among(items.take(index as int))),
                stored,
            ),
            summaries@ == summaries_of(stored, symbols_among(items.take(index as int))),
        decreases count - index,
    {
        let ghost before = symbols_among(items.take(index as int));
        let ghost after = symbols_among(items.take(index + 1));
        assert(items.take(index + 1).drop_last() =~= items.take(index as int));
        if let Some(id) = symbol_at(&ids, index) {
            let found = DisputeContract::find_dispute(env, &id);
            proof {
                assert(after =~= before.push(id));
                assert(after.drop_last() =~= before);
                assert(dispute_reads(after) =~= dispute_reads(before) + seq![
                    HostCall::Read(DataKey::Dispute(id)),
                ]);
                assert(host_calls(*env) =~= host_calls(*old(env)) + dispute_reads(after));
            }
            if let Some(dispute) = found {
                let both_evidence_submitted = dispute.disputer_evidence.is_some()
                    && dispute.respondent_evidence.is_some();
                summaries.push(
                    DisputeSummary {
                        id,
                        status: dispute.status,
                        amount: dispute.amount,
                        outcome: dispute.outcome,
                        both_evidence_submitted,
                        filed_at: dispute.filed_at,
                    },
                );
            }
            assert(summaries@ =~= summaries_of(stored, after));
        }
        index = index + 1;
    }
    assert(items.take(index as int) =~= items);
    summaries
}

/// The reads of `get_dispute_with_parties_cached`.
pub open spec fn parties_reads(id: Symbol) -> Seq<HostCall> {
    seq![HostCall::Read(DataKey::Dispute(id)), HostCall::Read(DataKey::Arbitrators)]
}

/// Return a dispute along with the arbitrators who may decide it. Reads twice.
pub fn get_dispute_with_parties_cached(env: &mut Env, id: Symbol) -> (found: Option<
    (Dispute, soroban_sdk::Vec<Address>),
>)
    ensures
        performed(*old(env), *final(env), parties_reads(id), storage(*old(env))),
        match found {
            Some((dispute, arbitrators)) => {
                &&& storage(*old(env)).dispute(id) == Some(dispute)
                &&& addresses_of(arbitrators) == Some(storage(*old(env)).arbitrator_list())
            },
            None => storage(*old(env)).dispute(id) is None,
        },
{
    let loaded = DisputeContract::find_dispute(env, &id);
    let arbitrators = DisputeContract::list_arbitrators(env);
    assert(host_calls(*env) =~= host_calls(*old(env)) + parties_reads(id));
    match loaded {
        Some(dispute) => Some((dispute, arbitrators)),
        None => None,
    }
}

} // verus!
