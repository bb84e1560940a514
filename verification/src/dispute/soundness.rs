//! What holds of the contract's storage at all times.

use soroban_sdk::{Address, Symbol};
use vstd::prelude::*;

use crate::dispute::rules::{
    arbitrator_added, arbitrator_removed, dispute_filed, evidence_refusal, filing_refusal,
    initialized, list_with, list_without, ruling_refusal, settling_refusal,
};
use crate::dispute::types::{
    Dispute, DisputeOutcome, DisputeRecord, DisputeStatus, Storage, WHOLE_BPS,
};

verus! {

impl Dispute {
    /// What holds of every dispute: the amount is positive, the disputer has
    /// submitted evidence, an arbitrator and an outcome are on record from the
    /// decision on and not before, and a settlement time from the settlement on.
    pub open spec fn sound(self) -> bool {
        &&& self.amount > 0
        &&& self.disputer_evidence is Some
        &&& self.status == DisputeStatus::Open ==> self.respondent_evidence is None
        &&& self.status.undecided() ==> {
            &&& self.arbitrator is None
            &&& self.outcome == DisputeOutcome::RefundDisputer
            &&& self.split_bps == 0
        }
        &&& !self.status.undecided() ==> self.arbitrator is Some
        &&& self.outcome == DisputeOutcome::Split ==> self.split_bps <= WHOLE_BPS
        &&& self.status != DisputeStatus::Settled ==> self.settled_at == 0
    }
}

impl Storage {
    /// What holds of the storage at all times: the list of ids names each
    /// stored dispute once and nothing else, each dispute is stored under its
    /// own id and is sound, and no arbitrator is listed twice.
    pub open spec fn sound(self) -> bool {
        &&& self.id_list().no_duplicates()
        &&& forall|id: Symbol| #[trigger]
            self.disputes.contains_key(id) <==> self.id_list().contains(id)
        &&& forall|id: Symbol| #[trigger]
            self.disputes.contains_key(id) ==> {
                &&& self.dispute(id) is Some
                &&& self.dispute(id)->0.id == id
                &&& self.dispute(id)->0.sound()
            }
        &&& self.arbitrator_list().no_duplicates()
    }
}

/// Before anything is stored the invariant holds.
pub proof fn empty_storage_is_sound(stored: Storage)
    requires
        stored.arbitrators is None,
        stored.dispute_ids is None,
        stored.disputes == Map::<Symbol, DisputeRecord>::empty(),
    ensures
        stored.sound(),
{
}

/// `initialize` keeps the invariant.
pub proof fn initialize_keeps_sound(stored: Storage, admin: Address)
    requires
        stored.sound(),
    ensures
        initialized(stored, admin).sound(),
{
    let after = initialized(stored, admin);
    assert forall|id: Symbol| #[trigger] after.disputes.contains_key(id) implies {
        &&& after.dispute(id) is Some
        &&& after.dispute(id)->0.id == id
        &&& after.dispute(id)->0.sound()
    } by {
        assert(stored.disputes.contains_key(id));
    }
}

/// `pause` and `unpause` keep the invariant.
pub proof fn pausing_keeps_sound(stored: Storage, paused: bool)
    requires
        stored.sound(),
    ensures
        stored.with_paused(paused).sound(),
{
    let after = stored.with_paused(paused);
    assert forall|id: Symbol| #[trigger] after.disputes.contains_key(id) implies {
        &&& after.dispute(id) is Some
        &&& after.dispute(id)->0.id == id
        &&& after.dispute(id)->0.sound()
    } by {
        assert(stored.disputes.contains_key(id));
    }
}

/// Replacing the arbitrators by a list without repetition keeps the invariant.
proof fn arbitrators_keep_sound(stored: Storage, list: Seq<Address>)
    requires
        stored.sound(),
        list.no_duplicates(),
    ensures
        stored.with_arbitrators(list).sound(),
{
    let after = stored.with_arbitrators(list);
    assert forall|id: Symbol| #[trigger] after.disputes.contains_key(id) implies {
        &&& after.dispute(id) is Some
        &&& after.dispute(id)->0.id == id
        &&& after.dispute(id)->0.sound()
    } by {
        assert(stored.disputes.contains_key(id));
    }
}

/// `add_arbitrator` keeps the invariant.
pub proof fn adding_keeps_sound(stored: Storage, arbitrator: Address)
    requires
        stored.sound(),
    ensures
        arbitrator_added(stored, arbitrator).sound(),
{
    if !stored.arbitrator_list().contains(arbitrator) {
        arbitrators_keep_sound(stored, list_with(stored.arbitrator_list(), arbitrator));
    }
}

/// Who is listed after a removal: the others, and nobody else.
pub proof fn removal_leaves_the_others(list: Seq<Address>, arbitrator: Address, who: Address)
    ensures
        list_without(list, arbitrator).contains(who) <==> list.contains(who) && who != arbitrator,
    decreases list.len(),
{
    broadcast use vstd::seq_lib::group_seq_properties;

    reveal(Seq::filter);
    if list.len() > 0 {
        let rest = list.drop_last();
        removal_leaves_the_others(rest, arbitrator, who);
        assert(list =~= rest.push(list.last()));
    }
}

/// Nobody is listed twice in what is left of a list without repetition.
proof fn removing_keeps_distinct(list: Seq<Address>, arbitrator: Address)
    requires
        list.no_duplicates(),
    ensures
        list_without(list, arbitrator).no_duplicates(),
    decreases list.len(),
{
    reveal(Seq::filter);
    if list.len() > 0 {
        let rest = list.drop_last();
        removing_keeps_distinct(rest, arbitrator);
        removal_leaves_the_others(rest, arbitrator, list.last());
    }
}

/// `remove_arbitrator` keeps the invariant.
pub proof fn removing_keeps_sound(stored: Storage, arbitrator: Address)
    requires
        stored.sound(),
    ensures
        arbitrator_removed(stored, arbitrator).sound(),
{
    removing_keeps_distinct(stored.arbitrator_list(), arbitrator);
    arbitrators_keep_sound(stored, list_without(stored.arbitrator_list(), arbitrator));
}

/// Writing a sound dispute over one with the same id keeps the invariant.
proof fn rewriting_keeps_sound(stored: Storage, id: Symbol, dispute: Dispute)
    requires
        stored.sound(),
        stored.disputes.contains_key(id),
        dispute.id == id,
        dispute.sound(),
    ensures
        stored.with_dispute(id, dispute).sound(),
{
    let after = stored.with_dispute(id, dispute);
    assert(dispute.encoded().decoded() == Some(dispute));
    assert forall|other: Symbol| #[trigger]
        after.disputes.contains_key(other) <==> after.id_list().contains(other) by {
        assert(stored.disputes.contains_key(other) <==> stored.id_list().contains(other));
    }
    assert forall|other: Symbol| #[trigger] after.disputes.contains_key(other) implies {
        &&& after.dispute(other) is Some
        &&& after.dispute(other)->0.id == other
        &&& after.dispute(other)->0.sound()
    } by {
        assert(stored.disputes.contains_key(other));
    }
}

/// `file_dispute` keeps the invariant.
pub proof fn filing_keeps_sound(
    stored: Storage,
    id: Symbol,
    disputer: Address,
    respondent: Address,
    token: Address,
    amount: i128,
    evidence: soroban_sdk::String,
    now: u64,
)
    requires
        stored.sound(),
        filing_refusal(stored, id, amount) is None,
    ensures
        dispute_filed(
            stored,
            Dispute::filed(id, disputer, respondent, token, amount, evidence, now),
        ).sound(),
{
    let dispute = Dispute::filed(id, disputer, respondent, token, amount, evidence, now);
    let after = dispute_filed(stored, dispute);
    assert(dispute.encoded().decoded() == Some(dispute));
    assert(!stored.id_list().contains(id));
    assert forall|other: Symbol| #[trigger]
        after.disputes.contains_key(other) <==> after.id_list().contains(other) by {
        assert(stored.disputes.contains_key(other) <==> stored.id_list().contains(other));
        let ids = stored.id_list();
        if ids.contains(other) {
            let at = choose|i: int| 0 <= i < ids.len() && ids[i] == other;
            assert(ids.push(id)[at] == other);
        }
        assert(ids.push(id)[ids.len() as int] == id);
    }
    assert forall|other: Symbol| #[trigger] after.disputes.contains_key(other) implies {
        &&& after.dispute(other) is Some
        &&& after.dispute(other)->0.id == other
        &&& after.dispute(other)->0.sound()
    } by {
        if other != id {
            assert(stored.disputes.contains_key(other));
        }
    }
}

/// `submit_evidence` keeps the invariant.
pub proof fn evidence_keeps_sound(
    stored: Storage,
    id: Symbol,
    caller: Address,
    evidence: soroban_sdk::String,
)
    requires
        stored.sound(),
        evidence_refusal(stored, id, caller) is None,
    ensures
        stored.with_dispute(id, (stored.dispute(id)->0).with_evidence(caller, evidence)).sound(),
{
    rewriting_keeps_sound(stored, id, (stored.dispute(id)->0).with_evidence(caller, evidence));
}

/// `decide` keeps the invariant.
pub proof fn ruling_keeps_sound(
    stored: Storage,
    id: Symbol,
    arbitrator: Address,
    outcome: DisputeOutcome,
    split_bps: u32,
)
    requires
        stored.sound(),
        ruling_refusal(stored, id, arbitrator, outcome, split_bps) is None,
    ensures
        stored.with_dispute(
            id,
            (stored.dispute(id)->0).ruled(arbitrator, outcome, split_bps),
        ).sound(),
{
    rewriting_keeps_sound(
        stored,
        id,
        (stored.dispute(id)->0).ruled(arbitrator, outcome, split_bps),
    );
}

/// `settle` keeps the invariant.
pub proof fn settling_keeps_sound(stored: Storage, id: Symbol, now: u64)
    requires
        stored.sound(),
        settling_refusal(stored, id) is None,
    ensures
        stored.with_dispute(id, (stored.dispute(id)->0).closed(now)).sound(),
{
    rewriting_keeps_sound(stored, id, (stored.dispute(id)->0).closed(now));
}

} // verus!
