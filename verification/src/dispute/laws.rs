//! What holds of the dispute contract as a whole, across its operations.

use soroban_sdk::{Address, Symbol};
use vstd::prelude::*;

use crate::batch::{
    batches_add_up, batches_are_no_longer_than_their_lists, batches_of_one_are_single_queries,
    complete_batches_keep_the_order,
};
use crate::dispute::rules::{
    admin_checks, admin_refusal, arbitrator_added, arbitrator_removed, closing_calls, dispute_filed,
    evidence_checks, evidence_refusal, filing_checks, filing_refusal, initialize_refusal,
    initialized, list_without, paying_calls, ruling_checks, ruling_refusal, settling_checks,
    settling_refusal, token_check,
};
use crate::dispute::soundness::removal_leaves_the_others;
use crate::dispute::types::{
    Dispute, DisputeError, DisputeOutcome, DisputeRecord, DisputeStatus, HostCall, Storage,
    WHOLE_BPS,
};
use crate::dispute::views::{dispute_reads, parties_reads, summaries_of, summary_at, summary_of};

verus! {

// ----------------------------------------------------------------------------
// Records
// ----------------------------------------------------------------------------

/// What is stored of a dispute gives the dispute back, and a record that
/// stands for a dispute is the one that the dispute is stored as.
pub proof fn records_round_trip(dispute: Dispute, record: DisputeRecord)
    ensures
        dispute.encoded().decoded() == Some(dispute),
        record.decoded() is Some ==> (record.decoded()->0).encoded() == record,
{
}

/// A dispute that was written under an id is read back from there, and what is
/// stored under the other ids stays as it was.
pub proof fn written_disputes_are_read_back(
    stored: Storage,
    id: Symbol,
    dispute: Dispute,
    other: Symbol,
)
    ensures
        stored.with_dispute(id, dispute).dispute(id) == Some(dispute),
        other != id ==> stored.with_dispute(id, dispute).dispute(other) == stored.dispute(other),
{
    records_round_trip(dispute, dispute.encoded());
}

/// A dispute that was filed is read back, and its id comes last in the list of
/// all ids, after those that were listed before, in the same order.
pub proof fn filed_disputes_are_listed_and_read_back(stored: Storage, dispute: Dispute)
    ensures
        dispute_filed(stored, dispute).dispute(dispute.id) == Some(dispute),
        dispute_filed(stored, dispute).id_list() == stored.id_list().push(dispute.id),
{
    records_round_trip(dispute, dispute.encoded());
}

// ----------------------------------------------------------------------------
// Lifecycle
// ----------------------------------------------------------------------------

/// A dispute is decidable, pending settlement or settled, and only one of these.
pub proof fn every_dispute_is_in_one_phase(dispute: Dispute)
    ensures
        ({
            let decidable = dispute.status.undecided();
            let pending = dispute.status == DisputeStatus::Decided;
            let settled = dispute.status == DisputeStatus::Settled;
            &&& decidable || pending || settled
            &&& !(decidable && pending)
            &&& !(decidable && settled)
            &&& !(pending && settled)
        }),
{
}

/// The phases follow one another and none comes back: evidence leads to
/// `Evidence`, a decision from there or from `Open` to `Decided`, a settlement
/// from `Decided` to `Settled`.
pub proof fn phases_only_move_forward(
    dispute: Dispute,
    caller: Address,
    evidence: soroban_sdk::String,
    arbitrator: Address,
    outcome: DisputeOutcome,
    split_bps: u32,
    now: u64,
)
    ensures
        dispute.status.undecided() ==> {
            &&& dispute.status.code_of() <= dispute.with_evidence(
                caller,
                evidence,
            ).status.code_of()
            &&& dispute.with_evidence(caller, evidence).status == DisputeStatus::Evidence
            &&& dispute.status.code_of() < dispute.ruled(
                arbitrator,
                outcome,
                split_bps,
            ).status.code_of()
            &&& dispute.ruled(arbitrator, outcome, split_bps).status == DisputeStatus::Decided
        },
        dispute.status == DisputeStatus::Decided ==> {
            &&& dispute.status.code_of() < dispute.closed(now).status.code_of()
            &&& dispute.closed(now).status == DisputeStatus::Settled
        },
{
}

/// No step changes who is in dispute about what: id, parties, token, amount and
/// filing time stay as they were filed.
pub proof fn the_claim_never_changes(
    dispute: Dispute,
    caller: Address,
    evidence: soroban_sdk::String,
    arbitrator: Address,
    outcome: DisputeOutcome,
    split_bps: u32,
    now: u64,
)
    ensures
        same_claim(dispute, dispute.with_evidence(caller, evidence)),
        same_claim(dispute, dispute.ruled(arbitrator, outcome, split_bps)),
        same_claim(dispute, dispute.closed(now)),
{
}

/// Whether two records are of the same claim.
pub open spec fn same_claim(a: Dispute, b: Dispute) -> bool {
    &&& a.id == b.id
    &&& a.disputer == b.disputer
    &&& a.respondent == b.respondent
    &&& a.token == b.token
    &&& a.amount == b.amount
    &&& a.filed_at == b.filed_at
}

/// A party's evidence replaces that party's own and leaves the other's alone.
pub proof fn evidence_stays_apart(dispute: Dispute, caller: Address, evidence: soroban_sdk::String)
    requires
        dispute.has_party(caller),
    ensures
        caller == dispute.disputer ==> {
            let after = dispute.with_evidence(caller, evidence);
            &&& after.disputer_evidence == Some(evidence)
            &&& after.respondent_evidence == dispute.respondent_evidence
        },
        caller != dispute.disputer ==> {
            let after = dispute.with_evidence(caller, evidence);
            &&& after.respondent_evidence == Some(evidence)
            &&& after.disputer_evidence == dispute.disputer_evidence
        },
{
}

/// A decision is the last word on the outcome: the settlement keeps it.
pub proof fn settlements_keep_the_decision(
    dispute: Dispute,
    arbitrator: Address,
    outcome: DisputeOutcome,
    split_bps: u32,
    now: u64,
)
    ensures
        ({
            let after = dispute.ruled(arbitrator, outcome, split_bps).closed(now);
            &&& after.outcome == outcome
            &&& after.split_bps == split_bps
            &&& after.arbitrator == Some(arbitrator)
            &&& after.settled_at == now
        }),
{
}

/// Once a dispute is decided, no evidence and no other decision is taken, and
/// its id is not free again.
pub proof fn decided_disputes_are_not_reopened(
    stored: Storage,
    id: Symbol,
    caller: Address,
    outcome: DisputeOutcome,
    split_bps: u32,
    amount: i128,
)
    requires
        stored.dispute(id) is Some,
        !(stored.dispute(id)->0).status.undecided(),
    ensures
        evidence_refusal(stored, id, caller) is Some,
        ruling_refusal(stored, id, caller, outcome, split_bps) is Some,
        filing_refusal(stored, id, amount) is Some,
{
}

/// A dispute is settled once: right after a settlement a second one is refused.
pub proof fn settling_twice_is_refused(stored: Storage, id: Symbol, now: u64)
    requires
        settling_refusal(stored, id) is None,
    ensures
        settling_refusal(stored.with_dispute(id, (stored.dispute(id)->0).closed(now)), id) == Some(
            DisputeError::NotDecided,
        ),
{
    let closed = (stored.dispute(id)->0).closed(now);
    written_disputes_are_read_back(stored, id, closed, id);
}

/// A dispute is settled after a decision only: before it, settling is refused.
pub proof fn settling_undecided_disputes_is_refused(stored: Storage, id: Symbol)
    requires
        !stored.is_paused(),
        stored.dispute(id) is Some,
        (stored.dispute(id)->0).status.undecided(),
    ensures
        settling_refusal(stored, id) == Some(DisputeError::NotDecided),
{
}

/// A dispute is decided once: right after a decision a second one is refused.
pub proof fn deciding_twice_is_refused(
    stored: Storage,
    id: Symbol,
    arbitrator: Address,
    outcome: DisputeOutcome,
    split_bps: u32,
    second_outcome: DisputeOutcome,
    second_split_bps: u32,
)
    requires
        ruling_refusal(stored, id, arbitrator, outcome, split_bps) is None,
        second_outcome == DisputeOutcome::Split ==> second_split_bps <= WHOLE_BPS,
    ensures
        ruling_refusal(
            stored.with_dispute(
                id,
                (stored.dispute(id)->0).ruled(arbitrator, outcome, split_bps),
            ),
            id,
            arbitrator,
            second_outcome,
            second_split_bps,
        ) == Some(DisputeError::NotDecidable),
{
    let ruled = (stored.dispute(id)->0).ruled(arbitrator, outcome, split_bps);
    written_disputes_are_read_back(stored, id, ruled, id);
}

/// An id is taken once: right after a filing a second one under the id is refused.
pub proof fn filing_twice_is_refused(stored: Storage, dispute: Dispute, amount: i128)
    requires
        filing_refusal(stored, dispute.id, dispute.amount) is None,
        amount > 0,
    ensures
        filing_refusal(dispute_filed(stored, dispute), dispute.id, amount) == Some(
            DisputeError::DuplicateDispute,
        ),
{
}

/// A filed dispute can go on at once: a party's evidence is taken, and an
/// approved arbitrator's decision, and after the decision the settlement, as
/// far as a split can be computed.
pub proof fn filed_disputes_can_be_brought_to_an_end(
    stored: Storage,
    dispute: Dispute,
    arbitrator: Address,
    outcome: DisputeOutcome,
    split_bps: u32,
)
    requires
        filing_refusal(stored, dispute.id, dispute.amount) is None,
        dispute.status == DisputeStatus::Open,
        stored.arbitrator_list().contains(arbitrator),
        outcome == DisputeOutcome::Split ==> split_bps <= WHOLE_BPS,
    ensures
        ({
            let filed = dispute_filed(stored, dispute);
            let ruled = dispute.ruled(arbitrator, outcome, split_bps);
            let decided = filed.with_dispute(dispute.id, ruled);
            &&& evidence_refusal(filed, dispute.id, dispute.disputer) is None
            &&& evidence_refusal(filed, dispute.id, dispute.respondent) is None
            &&& ruling_refusal(filed, dispute.id, arbitrator, outcome, split_bps) is None
            &&& ruled.settlement() is Some ==> settling_refusal(decided, dispute.id) is None
            &&& ruled.settlement() is None ==> settling_refusal(decided, dispute.id) == Some(
                DisputeError::SplitOverflow,
            )
        }),
{
    let filed = dispute_filed(stored, dispute);
    let ruled = dispute.ruled(arbitrator, outcome, split_bps);
    filed_disputes_are_listed_and_read_back(stored, dispute);
    written_disputes_are_read_back(filed, dispute.id, ruled, dispute.id);
}

// ----------------------------------------------------------------------------
// Access control
// ----------------------------------------------------------------------------

/// Whoever acts must have authorised the invocation, before anything else is
/// asked of the host.
pub proof fn actors_authorise_first(
    stored: Storage,
    id: Symbol,
    actor: Address,
    amount: i128,
    outcome: DisputeOutcome,
    split_bps: u32,
)
    ensures
        admin_checks(actor)[0] == HostCall::RequireAuth(actor),
        filing_checks(stored, id, actor, amount)[0] == HostCall::RequireAuth(actor),
        evidence_checks(stored, id, actor)[0] == HostCall::RequireAuth(actor),
        ruling_checks(stored, id, actor, outcome, split_bps)[0] == HostCall::RequireAuth(actor),
{
}

/// Each step is taken by those who are entitled to it: evidence comes from a
/// party, a decision from an approved arbitrator, the admin's operations from
/// the admin.
pub proof fn steps_are_for_those_entitled(
    stored: Storage,
    id: Symbol,
    actor: Address,
    outcome: DisputeOutcome,
    split_bps: u32,
)
    ensures
        evidence_refusal(stored, id, actor) is None ==> (stored.dispute(id)->0).has_party(actor),
        ruling_refusal(stored, id, actor, outcome, split_bps) is None
            ==> stored.arbitrator_list().contains(actor),
        admin_refusal(stored, actor) is None <==> stored.admin == Some(actor),
{
}

/// Anyone may settle: no authorisation is asked for.
pub proof fn anyone_may_settle(stored: Storage, contract: Address, id: Symbol, now: u64)
    ensures
        ({
            let dispute = stored.dispute(id)->0;
            let payouts = dispute.settlement()->0;
            let calls = settling_checks(stored, id) + token_check(dispute.token, payouts)
                + paying_calls(contract, dispute.token, payouts) + closing_calls(dispute, id, now);
            forall|i: int| 0 <= i < calls.len() ==> !(#[trigger] calls[i] is RequireAuth)
        }),
{
}

/// A step of one dispute leaves everything else alone: the other disputes, the
/// list of ids, the admin, the pause and the arbitrators.
pub proof fn steps_stay_within_their_dispute(
    stored: Storage,
    id: Symbol,
    dispute: Dispute,
    other: Symbol,
)
    requires
        other != id,
    ensures
        ({
            let after = stored.with_dispute(id, dispute);
            &&& after.dispute(other) == stored.dispute(other)
            &&& after.id_list() == stored.id_list()
            &&& after.admin == stored.admin
            &&& after.is_paused() == stored.is_paused()
            &&& after.arbitrator_list() == stored.arbitrator_list()
        }),
{
}

/// The admin's operations leave every dispute and the list of ids alone.
pub proof fn admin_operations_touch_no_dispute(
    stored: Storage,
    admin: Address,
    arbitrator: Address,
    paused: bool,
    id: Symbol,
)
    ensures
        initialized(stored, admin).dispute(id) == stored.dispute(id),
        initialized(stored, admin).id_list() == stored.id_list(),
        stored.with_paused(paused).dispute(id) == stored.dispute(id),
        stored.with_paused(paused).id_list() == stored.id_list(),
        arbitrator_added(stored, arbitrator).dispute(id) == stored.dispute(id),
        arbitrator_added(stored, arbitrator).id_list() == stored.id_list(),
        arbitrator_removed(stored, arbitrator).dispute(id) == stored.dispute(id),
        arbitrator_removed(stored, arbitrator).id_list() == stored.id_list(),
{
}

/// The admin is set once: whoever it is, a second `initialize` is refused, the
/// admin's own operations are open to nobody else, and no operation changes it.
pub proof fn the_admin_is_set_once(
    stored: Storage,
    admin: Address,
    who: Address,
    id: Symbol,
    dispute: Dispute,
    paused: bool,
)
    requires
        initialize_refusal(stored) is None,
    ensures
        ({
            let ready = initialized(stored, admin);
            &&& initialize_refusal(ready) == Some(DisputeError::AlreadyInitialized)
            &&& admin_refusal(ready, who) is None <==> who == admin
            &&& ready.with_paused(paused).admin == Some(admin)
            &&& arbitrator_added(ready, who).admin == Some(admin)
            &&& arbitrator_removed(ready, who).admin == Some(admin)
            &&& dispute_filed(ready, dispute).admin == Some(admin)
            &&& ready.with_dispute(id, dispute).admin == Some(admin)
        }),
{
}

/// A fresh contract is not paused and has no arbitrators.
pub proof fn fresh_contracts_are_open(stored: Storage, admin: Address, who: Address)
    ensures
        !initialized(stored, admin).is_paused(),
        !initialized(stored, admin).arbitrator_list().contains(who),
{
}

/// While the contract is paused, no step of any dispute is taken. The admin's
/// operations stay open.
pub proof fn pausing_stops_every_step(
    stored: Storage,
    id: Symbol,
    who: Address,
    amount: i128,
    outcome: DisputeOutcome,
    split_bps: u32,
)
    ensures
        ({
            let paused = stored.with_paused(true);
            let refused = Some(DisputeError::Paused);
            &&& filing_refusal(paused, id, amount) == refused
            &&& evidence_refusal(paused, id, who) == refused
            &&& ruling_refusal(paused, id, who, outcome, split_bps) == refused
            &&& settling_refusal(paused, id) == refused
            &&& admin_refusal(paused, who) == admin_refusal(stored, who)
        }),
{
}

/// A pause that is lifted leaves no trace: every step is refused or taken as it
/// would have been before.
pub proof fn unpausing_undoes_pausing(
    stored: Storage,
    id: Symbol,
    who: Address,
    amount: i128,
    outcome: DisputeOutcome,
    split_bps: u32,
)
    requires
        !stored.is_paused(),
    ensures
        ({
            let lifted = stored.with_paused(true).with_paused(false);
            &&& filing_refusal(lifted, id, amount) == filing_refusal(stored, id, amount)
            &&& evidence_refusal(lifted, id, who) == evidence_refusal(stored, id, who)
            &&& ruling_refusal(lifted, id, who, outcome, split_bps) == ruling_refusal(
                stored,
                id,
                who,
                outcome,
                split_bps,
            )
            &&& settling_refusal(lifted, id) == settling_refusal(stored, id)
            &&& lifted.dispute(id) == stored.dispute(id)
        }),
{
}

/// Adding an arbitrator lists them and nobody else.
pub proof fn adding_lists_the_arbitrator(stored: Storage, arbitrator: Address, who: Address)
    ensures
        arbitrator_added(stored, arbitrator).arbitrator_list().contains(who) <==> who == arbitrator
            || stored.arbitrator_list().contains(who),
{
    let list = stored.arbitrator_list();
    broadcast use vstd::seq_lib::group_seq_properties;

    if !list.contains(arbitrator) {
        assert(list.push(arbitrator)[list.len() as int] == arbitrator);
    }
}

/// Adding an arbitrator twice is adding them once.
pub proof fn adding_twice_is_adding_once(stored: Storage, arbitrator: Address)
    ensures
        arbitrator_added(arbitrator_added(stored, arbitrator), arbitrator) == arbitrator_added(
            stored,
            arbitrator,
        ),
{
    adding_lists_the_arbitrator(stored, arbitrator, arbitrator);
}

/// A removed arbitrator decides nothing.
pub proof fn removed_arbitrators_cannot_decide(
    stored: Storage,
    arbitrator: Address,
    id: Symbol,
    outcome: DisputeOutcome,
    split_bps: u32,
)
    requires
        !stored.is_paused(),
    ensures
        ruling_refusal(
            arbitrator_removed(stored, arbitrator),
            id,
            arbitrator,
            outcome,
            split_bps,
        ) == Some(DisputeError::NotAnArbitrator),
{
    removal_leaves_the_others(stored.arbitrator_list(), arbitrator, arbitrator);
}

/// A list from which nobody has to leave stays as it is.
proof fn removing_a_stranger_changes_nothing(list: Seq<Address>, arbitrator: Address)
    requires
        !list.contains(arbitrator),
    ensures
        list_without(list, arbitrator) == list,
    decreases list.len(),
{
    reveal(Seq::filter);
    if list.len() > 0 {
        let rest = list.drop_last();
        assert forall|i: int| 0 <= i < rest.len() implies rest[i] != arbitrator by {
            assert(list[i] != arbitrator);
        }
        removing_a_stranger_changes_nothing(rest, arbitrator);
        assert(list.last() != arbitrator) by {
            assert(list[list.len() - 1] == list.last());
        }
        assert(rest.push(list.last()) =~= list);
    }
}

/// Removing a newly added arbitrator restores the list, and removing one who is
/// not listed changes nothing in it.
pub proof fn removing_undoes_adding(stored: Storage, arbitrator: Address)
    requires
        !stored.arbitrator_list().contains(arbitrator),
    ensures
        arbitrator_removed(arbitrator_added(stored, arbitrator), arbitrator).arbitrator_list()
            == stored.arbitrator_list(),
        arbitrator_removed(stored, arbitrator).arbitrator_list() == stored.arbitrator_list(),
{
    let list = stored.arbitrator_list();
    removing_a_stranger_changes_nothing(list, arbitrator);
    reveal(Seq::filter);
    assert(list.push(arbitrator).drop_last() =~= list);
}

// ----------------------------------------------------------------------------
// Views
// ----------------------------------------------------------------------------

/// A batch of summaries is the single lookups, one after the other: it can be
/// cut anywhere, and what it reads is cut there too.
pub proof fn summary_batches_add_up(stored: Storage, first: Seq<Symbol>, second: Seq<Symbol>)
    ensures
        summaries_of(stored, first + second) == summaries_of(stored, first) + summaries_of(
            stored,
            second,
        ),
        dispute_reads(first + second) == dispute_reads(first) + dispute_reads(second),
{
    batches_add_up(first, second, |id: Symbol| summary_at(stored, id));
    assert(dispute_reads(first + second) =~= dispute_reads(first) + dispute_reads(second));
}

/// A batch of one id gives the summary of its dispute, or nothing.
pub proof fn summary_batches_of_one_are_single_lookups(stored: Storage, id: Symbol)
    ensures
        summaries_of(stored, seq![id]) == (match stored.dispute(id) {
            Some(dispute) => seq![summary_of(id, dispute)],
            None => Seq::empty(),
        }),
{
    batches_of_one_are_single_queries(id, |id: Symbol| summary_at(stored, id));
}

/// A batch reads once for each id, whether or not there is a dispute, and gives
/// at most as many summaries.
pub proof fn summary_batches_read_once_for_each_id(stored: Storage, ids: Seq<Symbol>)
    ensures
        dispute_reads(ids).len() == ids.len(),
        summaries_of(stored, ids).len() <= ids.len(),
        ids.no_duplicates() ==> dispute_reads(ids).no_duplicates(),
{
    batches_are_no_longer_than_their_lists(ids, |id: Symbol| summary_at(stored, id));
}

/// Where all ids have disputes, the summaries come in the order of the ids.
pub proof fn complete_summary_batches_keep_the_order(stored: Storage, ids: Seq<Symbol>)
    requires
        forall|i: int| 0 <= i < ids.len() ==> stored.dispute(#[trigger] ids[i]) is Some,
    ensures
        summaries_of(stored, ids).len() == ids.len(),
        forall|i: int|
            0 <= i < ids.len() ==> #[trigger] summaries_of(stored, ids)[i] == summary_of(
                ids[i],
                stored.dispute(ids[i])->0,
            ),
{
    let find = |id: Symbol| summary_at(stored, id);
    assert forall|i: int| 0 <= i < ids.len() implies find(#[trigger] ids[i]) is Some by {
        assert(stored.dispute(ids[i]) is Some);
    }
    complete_batches_keep_the_order(ids, find);
    assert forall|i: int| 0 <= i < ids.len() implies #[trigger] summaries_of(stored, ids)[i]
        == summary_of(ids[i], stored.dispute(ids[i])->0) by {
        assert(stored.dispute(ids[i]) is Some);
    }
}

/// A dispute with its arbitrators takes two reads, of different keys, whether or
/// not there is a dispute.
pub proof fn parties_take_two_reads(id: Symbol)
    ensures
        parties_reads(id).len() == 2,
        parties_reads(id).no_duplicates(),
{
}

} // verus!
