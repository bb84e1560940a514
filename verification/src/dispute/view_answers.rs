//! What the views of disputes, and the steps of a single dispute, answer.
//!
//! The laws speak of any call, and of nothing but its arguments, its result, the
//! stored records and the requests it made.

use soroban_sdk::{Address, Env, Symbol};
use vstd::prelude::*;

use crate::dispute::answers::{
    is_as_recorded, is_outcome, is_phase, is_readable, shares_are_rounded_towards_nothing,
};
use crate::dispute::host::{host_calls, storage};
use crate::dispute::lifecycle::{share_of, Payout};
use crate::dispute::types::{
    DataKey, Dispute, DisputeError, DisputeOutcome, DisputeRecord, DisputeStatus, HostCall,
};
use crate::dispute::views::{
    dispute_reads, get_dispute_summary_batch, get_dispute_with_parties_cached, summary_at,
    CachedDisputeView, DisputeSummary,
};
use crate::sdk::{
    address_items, batches_find_what_is_there, symbol_items, symbols_among,
    symbols_among_are_the_symbols,
};

verus! {

// ----------------------------------------------------------------------------
// Views
// ----------------------------------------------------------------------------

/// A view is loaded exactly where a dispute is recorded, in one read.
pub proof fn views_are_loaded_where_disputes_are(
    env: &mut Env,
    id: Symbol,
    view: Option<CachedDisputeView>,
)
    requires
        call_ensures(CachedDisputeView::load, (env, id), view),
    ensures
        view is Some <==> storage(*old(env)).disputes.contains_key(id) && is_readable(
            storage(*old(env)).disputes[id],
        ),
        storage(*final(env)) == storage(*old(env)),
        host_calls(*final(env)) == host_calls(*old(env)) + seq![
            HostCall::Read(DataKey::Dispute(id)),
        ],
{
}

/// A loaded view says of a dispute's phase what is recorded.
pub proof fn loaded_views_know_the_phase(
    env: &mut Env,
    id: Symbol,
    view: CachedDisputeView,
    status: DisputeStatus,
    outcome: DisputeOutcome,
    decidable: bool,
    pending: bool,
    settled: bool,
)
    requires
        call_ensures(CachedDisputeView::load, (env, id), Some(view)),
        call_ensures(CachedDisputeView::status, (&view,), status),
        call_ensures(CachedDisputeView::outcome, (&view,), outcome),
        call_ensures(CachedDisputeView::is_decidable, (&view,), decidable),
        call_ensures(CachedDisputeView::is_pending_settlement, (&view,), pending),
        call_ensures(CachedDisputeView::is_settled, (&view,), settled),
    ensures
        ({
            let record = storage(*old(env)).disputes[id];
            &&& is_phase(status, record.status)
            &&& is_outcome(outcome, record.outcome)
            &&& decidable <==> record.status == 0 || record.status == 1
            &&& pending <==> record.status == 2
            &&& settled <==> record.status == 3
        }),
{
}

/// A loaded view says of a dispute's evidence what is recorded.
pub proof fn loaded_views_know_the_evidence(
    env: &mut Env,
    id: Symbol,
    view: CachedDisputeView,
    disputers: bool,
    respondents: bool,
    both: bool,
)
    requires
        call_ensures(CachedDisputeView::load, (env, id), Some(view)),
        call_ensures(CachedDisputeView::has_disputer_evidence, (&view,), disputers),
        call_ensures(CachedDisputeView::has_respondent_evidence, (&view,), respondents),
        call_ensures(CachedDisputeView::both_parties_submitted, (&view,), both),
    ensures
        ({
            let record = storage(*old(env)).disputes[id];
            &&& disputers <==> record.disputer_evidence is Some
            &&& respondents <==> record.respondent_evidence is Some
            &&& both <==> disputers && respondents
        }),
{
}

/// A loaded view gives the numbers and the dispute that are recorded.
pub proof fn loaded_views_know_the_record(
    env: &mut Env,
    id: Symbol,
    view: CachedDisputeView,
    amount: i128,
    split_bps: u32,
    filed_at: u64,
    settled_at: u64,
    borrowed: &Dispute,
    owned: Dispute,
)
    requires
        call_ensures(CachedDisputeView::load, (env, id), Some(view)),
        call_ensures(CachedDisputeView::amount, (&view,), amount),
        call_ensures(CachedDisputeView::split_bps, (&view,), split_bps),
        call_ensures(CachedDisputeView::filed_at, (&view,), filed_at),
        call_ensures(CachedDisputeView::settled_at, (&view,), settled_at),
        call_ensures(CachedDisputeView::dispute, (&view,), borrowed),
        call_ensures(CachedDisputeView::into_dispute, (view,), owned),
    ensures
        ({
            let record = storage(*old(env)).disputes[id];
            &&& amount == record.amount
            &&& split_bps == record.split_bps
            &&& filed_at == record.filed_at
            &&& settled_at == record.settled_at
            &&& is_as_recorded(*borrowed, record)
            &&& is_as_recorded(owned, record)
        }),
{
}

/// A batch gives one summary for each id of the list under which a dispute is
/// recorded, in the order of the list, and each says what the record says. `there`
/// tells these ids apart.
pub proof fn summaries_say_what_is_recorded(
    env: &mut Env,
    ids: soroban_sdk::Vec<Symbol>,
    summaries: Vec<DisputeSummary>,
    there: spec_fn(Option<Symbol>) -> bool,
)
    requires
        call_ensures(get_dispute_summary_batch, (env, ids), summaries),
        forall|item: Option<Symbol>| #[trigger]
            there(item) <==> item is Some && storage(*old(env)).disputes.contains_key(item->0)
                && is_readable(storage(*old(env)).disputes[item->0]),
    ensures
        summaries@.len() == symbol_items(ids).filter(there).len(),
        forall|i: int|
            0 <= i < summaries@.len() ==> {
                let summary = #[trigger] summaries@[i];
                let record = storage(*old(env)).disputes[summary.id];
                &&& symbol_items(ids).filter(there)[i] == Some(summary.id)
                &&& is_phase(summary.status, record.status)
                &&& summary.amount == record.amount
                &&& is_outcome(summary.outcome, record.outcome)
                &&& summary.both_evidence_submitted <==> record.disputer_evidence is Some
                    && record.respondent_evidence is Some
                &&& summary.filed_at == record.filed_at
            },
        storage(*final(env)) == storage(*old(env)),
{
    let stored = storage(*old(env));
    let items = symbol_items(ids);
    let find = |id: Symbol| summary_at(stored, id);
    batches_find_what_is_there(items, find, there);
    assert forall|i: int| 0 <= i < summaries@.len() implies ({
        let summary = #[trigger] summaries@[i];
        let record = stored.disputes[summary.id];
        &&& items.filter(there)[i] == Some(summary.id)
        &&& is_phase(summary.status, record.status)
        &&& summary.amount == record.amount
        &&& is_outcome(summary.outcome, record.outcome)
        &&& summary.both_evidence_submitted <==> record.disputer_evidence is Some
            && record.respondent_evidence is Some
        &&& summary.filed_at == record.filed_at
    }) by {
        let item = items.filter(there)[i];
        assert(find(item->0) == Some(summaries@[i]));
    }
}

/// A batch reads one record for each id of the list, in the order of the list.
/// `is_symbol` tells the ids apart.
pub proof fn summaries_take_one_read_each(
    env: &mut Env,
    ids: soroban_sdk::Vec<Symbol>,
    summaries: Vec<DisputeSummary>,
    is_symbol: spec_fn(Option<Symbol>) -> bool,
)
    requires
        call_ensures(get_dispute_summary_batch, (env, ids), summaries),
        forall|item: Option<Symbol>| #[trigger] is_symbol(item) <==> item is Some,
    ensures
        ({
            let start = host_calls(*old(env)).len();
            let asked = symbol_items(ids).filter(is_symbol);
            &&& host_calls(*final(env)).len() == start + asked.len()
            &&& forall|i: int|
                0 <= i < asked.len() ==> #[trigger] host_calls(*final(env))[start + i]
                    == HostCall::Read(DataKey::Dispute(asked[i]->0))
        }),
{
    let items = symbol_items(ids);
    let start = host_calls(*old(env)).len();
    let asked = items.filter(is_symbol);
    symbols_among_are_the_symbols(items, is_symbol);
    assert forall|i: int| 0 <= i < asked.len() implies #[trigger] host_calls(*final(env))[start
        + i] == HostCall::Read(DataKey::Dispute(asked[i]->0)) by {
        assert(host_calls(*final(env))[start + i] == dispute_reads(symbols_among(items))[i]);
        assert(asked[i] == Some(symbols_among(items)[i]));
    }
}

/// A dispute comes with all arbitrators, as they are stored, in two reads.
pub proof fn disputes_come_with_the_arbitrators(
    env: &mut Env,
    id: Symbol,
    found: Option<(Dispute, soroban_sdk::Vec<Address>)>,
)
    requires
        call_ensures(get_dispute_with_parties_cached, (env, id), found),
    ensures
        found is Some <==> storage(*old(env)).disputes.contains_key(id) && is_readable(
            storage(*old(env)).disputes[id],
        ),
        found matches Some((dispute, list)) ==> {
            let stored = storage(*old(env)).arbitrators;
            &&& is_as_recorded(dispute, storage(*old(env)).disputes[id])
            &&& stored is None ==> address_items(list).len() == 0
            &&& stored matches Some(stored) ==> address_items(list).len() == stored.len()
            &&& stored matches Some(stored) ==> forall|i: int|
                0 <= i < stored.len() ==> #[trigger] address_items(list)[i] == Some(stored[i])
        },
        storage(*final(env)) == storage(*old(env)),
        host_calls(*final(env)) == host_calls(*old(env)) + seq![
            HostCall::Read(DataKey::Dispute(id)),
            HostCall::Read(DataKey::Arbitrators),
        ],
{
    if let Some((dispute, list)) = found {
        let inner = address_items(list).map_values(|item: Option<Address>| item->0);
        if let Some(stored) = storage(*old(env)).arbitrators {
            assert forall|i: int| 0 <= i < stored.len() implies #[trigger] address_items(list)[i]
                == Some(stored[i]) by {
                assert(address_items(list)[i] is Some);
                assert(inner[i] == stored[i]);
            }
        } else {
            assert(inner.len() == 0);
        }
    }
}

// ----------------------------------------------------------------------------
// A single dispute
// ----------------------------------------------------------------------------

/// Phases and outcomes have their numbers, both ways, and no other number
/// stands for one.
pub proof fn phases_and_outcomes_have_numbers(
    status: DisputeStatus,
    outcome: DisputeOutcome,
    status_number: u32,
    outcome_number: u32,
    number: u32,
    found_status: Option<DisputeStatus>,
    found_outcome: Option<DisputeOutcome>,
)
    requires
        call_ensures(DisputeStatus::code, (status,), status_number),
        call_ensures(DisputeOutcome::code, (outcome,), outcome_number),
        call_ensures(DisputeStatus::from_code, (number,), found_status),
        call_ensures(DisputeOutcome::from_code, (number,), found_outcome),
    ensures
        is_phase(status, status_number),
        is_outcome(outcome, outcome_number),
        found_status is Some <==> number <= 3,
        found_status matches Some(found) ==> is_phase(found, number),
        found_outcome is Some <==> number <= 2,
        found_outcome matches Some(found) ==> is_outcome(found, number),
{
}

/// A dispute and its record say the same, field by field.
pub proof fn records_say_what_their_disputes_say(
    dispute: Dispute,
    encoded: DisputeRecord,
    record: DisputeRecord,
    decoded: Option<Dispute>,
)
    requires
        call_ensures(Dispute::encode, (dispute,), encoded),
        call_ensures(DisputeRecord::decode, (record,), decoded),
    ensures
        is_as_recorded(dispute, encoded),
        decoded is Some <==> is_readable(record),
        decoded matches Some(found) ==> is_as_recorded(found, record),
{
}

/// A filed dispute holds what it was filed with and is open.
pub proof fn disputes_are_filed_open(
    id: Symbol,
    disputer: Address,
    respondent: Address,
    token: Address,
    amount: i128,
    evidence: soroban_sdk::String,
    now: u64,
    dispute: Dispute,
    undecided: bool,
)
    requires
        call_ensures(
            Dispute::file,
            (id, disputer, respondent, token, amount, evidence, now),
            dispute,
        ),
        call_ensures(Dispute::is_undecided, (&dispute,), undecided),
    ensures
        dispute.id == id,
        dispute.disputer == disputer,
        dispute.respondent == respondent,
        dispute.token == token,
        dispute.amount == amount,
        dispute.status == DisputeStatus::Open,
        dispute.outcome == DisputeOutcome::RefundDisputer,
        dispute.split_bps == 0,
        dispute.arbitrator is None,
        dispute.filed_at == now,
        dispute.settled_at == 0,
        dispute.disputer_evidence == Some(evidence),
        dispute.respondent_evidence is None,
        undecided,
{
}

/// Evidence and decisions are taken exactly while a dispute is `Open` or in
/// `Evidence`.
pub proof fn undecided_is_open_or_evidence(dispute: Dispute, undecided: bool)
    requires
        call_ensures(Dispute::is_undecided, (&dispute,), undecided),
    ensures
        undecided <==> dispute.status == DisputeStatus::Open || dispute.status
            == DisputeStatus::Evidence,
{
}

/// Evidence goes into the slot of the party that gives it, the disputer's first
/// if the caller is both, and moves the dispute to `Evidence`.
pub proof fn evidence_goes_to_its_slot(
    dispute: Dispute,
    caller: Address,
    evidence: soroban_sdk::String,
    result: Result<Dispute, DisputeError>,
)
    requires
        call_ensures(Dispute::submit, (dispute, &caller, evidence), result),
    ensures
        ({
            let party = caller == dispute.disputer || caller == dispute.respondent;
            let open = dispute.status == DisputeStatus::Open || dispute.status
                == DisputeStatus::Evidence;
            &&& result is Ok <==> party && open
            &&& result == Err::<Dispute, DisputeError>(DisputeError::NotAParty) <==> !party
            &&& result == Err::<Dispute, DisputeError>(DisputeError::EvidenceClosed) <==> party
                && !open
            &&& result matches Ok(after) ==> if caller == dispute.disputer {
                after == (Dispute {
                    status: DisputeStatus::Evidence,
                    disputer_evidence: Some(evidence),
                    ..dispute
                })
            } else {
                after == (Dispute {
                    status: DisputeStatus::Evidence,
                    respondent_evidence: Some(evidence),
                    ..dispute
                })
            }
        }),
{
}

/// A decision is written down as it is given, before any other, and a settlement
/// adds its time to it.
pub proof fn decisions_and_settlements_are_written_down(
    dispute: Dispute,
    arbitrator: Address,
    outcome: DisputeOutcome,
    split_bps: u32,
    result: Result<Dispute, DisputeError>,
    now: u64,
    closed: Dispute,
)
    requires
        call_ensures(Dispute::rule, (dispute, arbitrator, outcome, split_bps), result),
        call_ensures(Dispute::close, (dispute, now), closed),
    ensures
        result is Ok <==> dispute.status == DisputeStatus::Open || dispute.status
            == DisputeStatus::Evidence,
        result is Err <==> result == Err::<Dispute, DisputeError>(DisputeError::NotDecidable),
        result matches Ok(after) ==> after == (Dispute {
            status: DisputeStatus::Decided,
            outcome,
            split_bps,
            arbitrator: Some(arbitrator),
            ..dispute
        }),
        closed == (Dispute { status: DisputeStatus::Settled, settled_at: now, ..dispute }),
{
}

/// What a decision pays: on a refund the disputer gets the whole amount, on a
/// release the respondent does. On a split the respondent gets `share`, the basis
/// points' share rounded towards nothing, the disputer gets the rest, and whoever
/// would get nothing is not paid.
pub proof fn payouts_follow_the_decision(
    dispute: Dispute,
    share: int,
    result: Result<Vec<Payout>, DisputeError>,
)
    requires
        call_ensures(Dispute::payouts, (&dispute,), result),
        ({
            let product = dispute.amount * dispute.split_bps;
            &&& product >= 0 ==> share * 10_000 <= product < (share + 1) * 10_000
            &&& product <= 0 ==> (share - 1) * 10_000 < product <= share * 10_000
        }),
    ensures
        result is Err <==> dispute.outcome == DisputeOutcome::Split && !(i128::MIN
            <= dispute.amount * dispute.split_bps <= i128::MAX),
        result matches Err(error) ==> error == DisputeError::SplitOverflow,
        result matches Ok(payouts) ==> {
            let list = payouts@;
            let one = list.len() == 1;
            let split = dispute.outcome == DisputeOutcome::Split;
            let rest = dispute.amount - share;
            &&& dispute.outcome == DisputeOutcome::RefundDisputer ==> one && list[0].to
                == dispute.disputer && list[0].amount == dispute.amount
            &&& dispute.outcome == DisputeOutcome::ReleaseRespondent ==> one && list[0].to
                == dispute.respondent && list[0].amount == dispute.amount
            &&& split && share > 0 && rest > 0 ==> {
                &&& list.len() == 2
                &&& list[0].to == dispute.respondent && list[0].amount == share
                &&& list[1].to == dispute.disputer && list[1].amount == rest
            }
            &&& split && share > 0 && rest <= 0 ==> one && list[0].to == dispute.respondent
                && list[0].amount == share
            &&& split && share <= 0 && rest > 0 ==> one && list[0].to == dispute.disputer
                && list[0].amount == rest
            &&& split && share <= 0 && rest <= 0 ==> list.len() == 0
        },
{
    let (amount, bps) = (dispute.amount as int, dispute.split_bps as int);
    shares_are_rounded_towards_nothing(amount, bps);
    assert(share == share_of(amount, bps));
}

/// Every refusal says why, in words.
pub proof fn refusals_have_their_words(error: DisputeError, text: &'static str)
    requires
        call_ensures(DisputeError::message, (error,), text),
    ensures
        error == DisputeError::AlreadyInitialized ==> text@ == "Already initialized"@,
        error == DisputeError::NotInitialized ==> text@ == "Not initialized"@,
        error == DisputeError::NotAuthorized ==> text@ == "Not authorized"@,
        error == DisputeError::Paused ==> text@ == "Contract is paused"@,
        error == DisputeError::AmountNotPositive ==> text@ == "Amount must be positive"@,
        error == DisputeError::DuplicateDispute ==> text@ == "Dispute id already exists"@,
        error == DisputeError::DisputeNotFound ==> text@ == "Dispute not found"@,
        error == DisputeError::NotAParty ==> text@ == "Not a party"@,
        error == DisputeError::EvidenceClosed ==> text@
            == "Dispute not open or in evidence phase"@,
        error == DisputeError::NotAnArbitrator ==> text@ == "Not an arbitrator"@,
        error == DisputeError::SplitOutOfRange ==> text@ == "split_bps out of range"@,
        error == DisputeError::NotDecidable ==> text@ == "Not decidable"@,
        error == DisputeError::NotDecided ==> text@ == "Not decided yet"@,
        error == DisputeError::SplitOverflow ==> text@ == "Split overflow"@,
        error == DisputeError::TransferFailed ==> text@ == "Token transfer failed"@,
{
}

} // verus!
