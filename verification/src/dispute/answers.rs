//! What each operation of the dispute contract answers, on what is stored and
//! on what it asks of the host.
//!
//! The laws speak of any call of an operation, and of nothing but its arguments,
//! its result, the entries of the storage before and after, and the requests it
//! made.

use soroban_sdk::{Address, BytesN, Env, Symbol};
use vstd::prelude::*;

use crate::dispute::contract::{
    fails_to_lock, files, finds_no_token, settles, stops_paying, DisputeContract,
};
use crate::dispute::funds::shares_stay_within_the_amount;
use crate::dispute::host::{contract_address, host_calls, storage};
use crate::dispute::lifecycle::{share_of, Payout};
use crate::dispute::rules::{list_without, paying_calls, paying_transfer};
use crate::dispute::types::{
    DataKey, Dispute, DisputeError, DisputeOutcome, DisputeRecord, DisputeStatus, HostCall, Payload,
    Storage, Topic,
};
use crate::sdk::{address_items, symbol_items};

verus! {

/// Whether what is stored besides the disputes themselves is the same.
pub open spec fn same_but_for_disputes(a: Storage, b: Storage) -> bool {
    &&& a.admin == b.admin
    &&& a.paused == b.paused
    &&& a.arbitrators == b.arbitrators
    &&& a.dispute_ids == b.dispute_ids
}

/// Whether a record's two numbers stand for a phase and an outcome.
pub open spec fn is_readable(record: DisputeRecord) -> bool {
    record.status <= 3 && record.outcome <= 2
}

/// Whether the requests from the position `start` on only ask and look.
pub open spec fn only_looks(calls: Seq<HostCall>, start: int) -> bool {
    forall|i: int|
        start <= i < calls.len() ==> {
            let call = #[trigger] calls[i];
            call is RequireAuth || call is Has || call is Read
        }
}

// ----------------------------------------------------------------------------
// The four steps
// ----------------------------------------------------------------------------

/// A dispute is filed whenever the contract is not paused, the amount is
/// positive, the id is free and the token can be moved. Each refusal has its one
/// reason and leaves nothing behind.
pub proof fn filing_is_refused_for_a_reason(
    env: &mut Env,
    id: Symbol,
    disputer: Address,
    respondent: Address,
    token: Address,
    amount: i128,
    evidence: soroban_sdk::String,
    result: Result<(), DisputeError>,
)
    requires
        call_ensures(
            DisputeContract::file_dispute,
            (env, id, disputer, respondent, token, amount, evidence),
            result,
        ),
    ensures
        ({
            let stored = storage(*old(env));
            let paused = stored.paused == Some(true);
            let taken = stored.disputes.contains_key(id);
            let start = host_calls(*old(env)).len() as int;
            let calls = host_calls(*final(env));
            &&& result == Err::<(), DisputeError>(DisputeError::Paused) <==> paused
            &&& result == Err::<(), DisputeError>(DisputeError::AmountNotPositive) <==> !paused
                && amount <= 0
            &&& result == Err::<(), DisputeError>(DisputeError::DuplicateDispute) <==> !paused
                && amount > 0 && taken
            &&& !paused && amount > 0 && !taken ==> result is Ok || result == Err::<
                (),
                DisputeError,
            >(DisputeError::TransferFailed)
            &&& result == Err::<(), DisputeError>(DisputeError::TransferFailed) ==> {
                let first = host_calls(*old(env)) + seq![
                    HostCall::RequireAuth(disputer),
                    HostCall::Read(DataKey::Paused),
                    HostCall::Has(DataKey::Dispute(id)),
                ];
                let refused = HostCall::Transfer {
                    token,
                    from: disputer,
                    to: contract_address(*old(env)),
                    amount,
                    done: false,
                };
                ||| calls =~= first.push(HostCall::IsContract(token, false))
                ||| calls =~= first.push(HostCall::IsContract(token, true)).push(refused)
            }
            &&& result is Err ==> storage(*final(env)) == stored
            &&& paused || amount <= 0 || taken ==> only_looks(calls, start)
            &&& calls.len() > start && calls[start] == HostCall::RequireAuth(disputer)
        }),
{
    if result == Err::<(), DisputeError>(DisputeError::TransferFailed) {
        let found = choose|found: bool|
            fails_to_lock(*old(env), *final(env), id, disputer, token, amount, found);
        assert(fails_to_lock(*old(env), *final(env), id, disputer, token, amount, found));
    } else if result is Ok {
        let now = choose|now: u64|
            files(
                *old(env),
                *final(env),
                #[trigger] Dispute::filed(
                    id,
                    disputer,
                    respondent,
                    token,
                    amount,
                    evidence,
                    now,
                ),
            );
        assert(files(
            *old(env),
            *final(env),
            Dispute::filed(id, disputer, respondent, token, amount, evidence, now),
        ));
    }
}

/// What a filing stores, locks and announces. The dispute is open, with the
/// amount of the call locked in the contract and nothing decided on it.
pub proof fn filing_opens_a_dispute(
    env: &mut Env,
    id: Symbol,
    disputer: Address,
    respondent: Address,
    token: Address,
    amount: i128,
    evidence: soroban_sdk::String,
)
    requires
        call_ensures(
            DisputeContract::file_dispute,
            (env, id, disputer, respondent, token, amount, evidence),
            Ok::<(), DisputeError>(()),
        ),
    ensures
        ({
            let before = storage(*old(env));
            let after = storage(*final(env));
            let record = after.disputes[id];
            &&& after.disputes.contains_key(id)
            &&& record.id == id
            &&& record.disputer == disputer
            &&& record.respondent == respondent
            &&& record.token == token
            &&& record.amount == amount
            &&& record.status == 0
            &&& record.outcome == 0
            &&& record.split_bps == 0
            &&& record.arbitrator is None
            &&& record.settled_at == 0
            &&& record.disputer_evidence == Some(evidence)
            &&& record.respondent_evidence is None
            &&& forall|other: Symbol|
                other != id ==> {
                    &&& #[trigger] after.disputes.contains_key(other)
                        == before.disputes.contains_key(other)
                    &&& after.disputes[other] == before.disputes[other]
                }
            &&& before.dispute_ids matches Some(ids) ==> after.dispute_ids == Some(ids.push(id))
            &&& before.dispute_ids is None ==> after.dispute_ids == Some(seq![id])
            &&& after.admin == before.admin
            &&& after.paused == before.paused
            &&& after.arbitrators == before.arbitrators
        }),
        host_calls(*final(env)) == host_calls(*old(env)) + seq![
            HostCall::RequireAuth(disputer),
            HostCall::Read(DataKey::Paused),
            HostCall::Has(DataKey::Dispute(id)),
            HostCall::IsContract(token, true),
            HostCall::Transfer {
                token,
                from: disputer,
                to: contract_address(*old(env)),
                amount,
                done: true,
            },
            HostCall::Clock(storage(*final(env)).disputes[id].filed_at),
            HostCall::Write(DataKey::Dispute(id)),
            HostCall::ExtendTtl(DataKey::Dispute(id), 267_500, 535_000),
            HostCall::Read(DataKey::DisputeList),
            HostCall::Write(DataKey::DisputeList),
            HostCall::ExtendTtl(DataKey::DisputeList, 267_500, 535_000),
            HostCall::Publish(
                seq![Topic::Name("DspOpen"@), Topic::Id(id), Topic::Account(disputer)],
                Payload::Claim(respondent, amount),
            ),
        ],
{
    let now = choose|now: u64|
        files(
            *old(env),
            *final(env),
            #[trigger] Dispute::filed(id, disputer, respondent, token, amount, evidence, now),
        );
    assert(files(
        *old(env),
        *final(env),
        Dispute::filed(id, disputer, respondent, token, amount, evidence, now),
    ));
    if storage(*old(env)).dispute_ids is None {
        assert(Seq::<Symbol>::empty().push(id) =~= seq![id]);
    }
}

/// Evidence is taken from the disputer and from the respondent alike, in both
/// phases before the decision, as often as they like. Each refusal has its one
/// reason and leaves nothing behind.
pub proof fn evidence_is_taken_until_the_decision(
    env: &mut Env,
    id: Symbol,
    caller: Address,
    evidence: soroban_sdk::String,
    result: Result<(), DisputeError>,
)
    requires
        call_ensures(DisputeContract::submit_evidence, (env, id, caller, evidence), result),
    ensures
        ({
            let stored = storage(*old(env));
            let paused = stored.paused == Some(true);
            let record = stored.disputes[id];
            let found = stored.disputes.contains_key(id) && is_readable(record);
            let party = caller == record.disputer || caller == record.respondent;
            let start = host_calls(*old(env)).len() as int;
            let calls = host_calls(*final(env));
            &&& result is Ok <==> !paused && found && party && (record.status == 0 || record.status
                == 1)
            &&& result == Err::<(), DisputeError>(DisputeError::Paused) <==> paused
            &&& result == Err::<(), DisputeError>(DisputeError::DisputeNotFound) <==> !paused
                && !found
            &&& result == Err::<(), DisputeError>(DisputeError::NotAParty) <==> !paused && found
                && !party
            &&& result == Err::<(), DisputeError>(DisputeError::EvidenceClosed) <==> !paused
                && found && party && (record.status == 2 || record.status == 3)
            &&& result is Err ==> storage(*final(env)) == stored && only_looks(calls, start)
            &&& calls.len() > start && calls[start] == HostCall::RequireAuth(caller)
        }),
{
}

/// What evidence changes: the caller's own slot and the phase, and nothing else.
/// A caller who is both parties submits as the disputer.
pub proof fn evidence_is_recorded_for_its_party(
    env: &mut Env,
    id: Symbol,
    caller: Address,
    evidence: soroban_sdk::String,
)
    requires
        call_ensures(
            DisputeContract::submit_evidence,
            (env, id, caller, evidence),
            Ok::<(), DisputeError>(()),
        ),
    ensures
        ({
            let before = storage(*old(env));
            let after = storage(*final(env));
            let record = before.disputes[id];
            &&& caller == record.disputer ==> after.disputes == before.disputes.insert(
                id,
                (DisputeRecord { status: 1, disputer_evidence: Some(evidence), ..record }),
            )
            &&& caller != record.disputer ==> after.disputes == before.disputes.insert(
                id,
                (DisputeRecord { status: 1, respondent_evidence: Some(evidence), ..record }),
            )
            &&& same_but_for_disputes(before, after)
        }),
        host_calls(*final(env)) == host_calls(*old(env)) + seq![
            HostCall::RequireAuth(caller),
            HostCall::Read(DataKey::Paused),
            HostCall::Read(DataKey::Dispute(id)),
            HostCall::Write(DataKey::Dispute(id)),
            HostCall::ExtendTtl(DataKey::Dispute(id), 267_500, 535_000),
            HostCall::Publish(
                seq![Topic::Name("DspEvid"@), Topic::Id(id), Topic::Account(caller)],
                Payload::Nothing,
            ),
        ],
{
}

/// An approved arbitrator's decision is taken in both phases before a decision,
/// whichever evidence is on record. Each refusal has its one reason and leaves
/// nothing behind.
pub proof fn decisions_are_taken_once(
    env: &mut Env,
    id: Symbol,
    arbitrator: Address,
    outcome: DisputeOutcome,
    split_bps: u32,
    result: Result<(), DisputeError>,
)
    requires
        call_ensures(
            DisputeContract::decide,
            (env, id, arbitrator, outcome, split_bps),
            result,
        ),
    ensures
        ({
            let stored = storage(*old(env));
            let paused = stored.paused == Some(true);
            let approved = stored.arbitrators matches Some(list) && list.contains(arbitrator);
            let fair = outcome == DisputeOutcome::Split ==> split_bps <= 10_000;
            let record = stored.disputes[id];
            let found = stored.disputes.contains_key(id) && is_readable(record);
            let start = host_calls(*old(env)).len() as int;
            let calls = host_calls(*final(env));
            &&& result is Ok <==> !paused && approved && fair && found && (record.status == 0
                || record.status == 1)
            &&& result == Err::<(), DisputeError>(DisputeError::Paused) <==> paused
            &&& result == Err::<(), DisputeError>(DisputeError::NotAnArbitrator) <==> !paused
                && !approved
            &&& result == Err::<(), DisputeError>(DisputeError::SplitOutOfRange) <==> !paused
                && approved && !fair
            &&& result == Err::<(), DisputeError>(DisputeError::DisputeNotFound) <==> !paused
                && approved && fair && !found
            &&& result == Err::<(), DisputeError>(DisputeError::NotDecidable) <==> !paused
                && approved && fair && found && (record.status == 2 || record.status == 3)
            &&& result is Err ==> storage(*final(env)) == stored && only_looks(calls, start)
            &&& calls.len() > start && calls[start] == HostCall::RequireAuth(arbitrator)
        }),
{
}

/// What a decision changes: phase, outcome, split and arbitrator, as the call
/// gives them, and nothing else.
pub proof fn decisions_are_recorded_as_given(
    env: &mut Env,
    id: Symbol,
    arbitrator: Address,
    outcome: DisputeOutcome,
    split_bps: u32,
    number: u32,
)
    requires
        call_ensures(
            DisputeContract::decide,
            (env, id, arbitrator, outcome, split_bps),
            Ok::<(), DisputeError>(()),
        ),
        outcome == DisputeOutcome::RefundDisputer ==> number == 0,
        outcome == DisputeOutcome::ReleaseRespondent ==> number == 1,
        outcome == DisputeOutcome::Split ==> number == 2,
    ensures
        storage(*final(env)).disputes == storage(*old(env)).disputes.insert(
            id,
            (DisputeRecord {
                status: 2,
                outcome: number,
                split_bps,
                arbitrator: Some(arbitrator),
                ..storage(*old(env)).disputes[id]
            }),
        ),
        same_but_for_disputes(storage(*old(env)), storage(*final(env))),
        host_calls(*final(env)) == host_calls(*old(env)) + seq![
            HostCall::RequireAuth(arbitrator),
            HostCall::Read(DataKey::Paused),
            HostCall::Read(DataKey::Arbitrators),
            HostCall::Read(DataKey::Dispute(id)),
            HostCall::Write(DataKey::Dispute(id)),
            HostCall::ExtendTtl(DataKey::Dispute(id), 267_500, 535_000),
            HostCall::Publish(
                seq![Topic::Name("DspDcide"@), Topic::Id(id), Topic::Account(arbitrator)],
                Payload::Ruling(number, split_bps),
            ),
        ],
{
}

/// A decided dispute is settled whenever the contract is not paused and the
/// tokens can be moved, by anyone. Each refusal has its one reason and leaves
/// nothing stored.
pub proof fn settling_is_refused_for_a_reason(
    env: &mut Env,
    id: Symbol,
    result: Result<(), DisputeError>,
)
    requires
        call_ensures(DisputeContract::settle, (env, id), result),
    ensures
        ({
            let stored = storage(*old(env));
            let paused = stored.paused == Some(true);
            let record = stored.disputes[id];
            let found = stored.disputes.contains_key(id) && is_readable(record);
            let too_large = record.outcome == 2 && !(i128::MIN <= record.amount * record.split_bps
                <= i128::MAX);
            let start = host_calls(*old(env)).len() as int;
            let calls = host_calls(*final(env));
            &&& result == Err::<(), DisputeError>(DisputeError::Paused) <==> paused
            &&& result == Err::<(), DisputeError>(DisputeError::DisputeNotFound) <==> !paused
                && !found
            &&& result == Err::<(), DisputeError>(DisputeError::NotDecided) <==> !paused && found
                && record.status != 2
            &&& result == Err::<(), DisputeError>(DisputeError::SplitOverflow) <==> !paused
                && found && record.status == 2 && too_large
            &&& !paused && found && record.status == 2 && !too_large ==> result is Ok || result
                == Err::<(), DisputeError>(DisputeError::TransferFailed)
            &&& result == Err::<(), DisputeError>(DisputeError::TransferFailed) ==> {
                ||| calls.last() == HostCall::IsContract(record.token, false)
                ||| calls.last() is Transfer && !calls.last()->done && calls.last()->token
                    == record.token && calls.last()->from == contract_address(*old(env))
            }
            &&& result is Err ==> storage(*final(env)) == stored
            &&& paused || !found || record.status != 2 || too_large ==> only_looks(calls, start)
        }),
{
    let stored = storage(*old(env));
    let record = stored.disputes[id];
    if result == Err::<(), DisputeError>(DisputeError::TransferFailed) {
        if !finds_no_token(*old(env), *final(env), id) {
            let paid = choose|paid: int| stops_paying(*old(env), *final(env), id, paid);
            assert(stops_paying(*old(env), *final(env), id, paid));
            let payout = (stored.dispute(id)->0).settlement()->0[paid];
            assert(host_calls(*final(env)).last() == paying_transfer(
                contract_address(*old(env)),
                record.token,
                payout,
                false,
            ));
        }
    }
    shares_are_rounded_towards_nothing(record.amount as int, record.split_bps as int);
}

/// A share is rounded towards nothing, and where its product fits so does what
/// it leaves.
pub(crate) proof fn shares_are_rounded_towards_nothing(amount: int, bps: int)
    requires
        i128::MIN <= amount <= i128::MAX,
        0 <= bps,
    ensures
        ({
            let (product, share) = (amount * bps, share_of(amount, bps));
            &&& product >= 0 ==> share * 10_000 <= product < (share + 1) * 10_000
            &&& product <= 0 ==> (share - 1) * 10_000 < product <= share * 10_000
            &&& i128::MIN <= product <= i128::MAX ==> i128::MIN <= amount - share <= i128::MAX
        }),
{
    let product = amount * bps;
    if amount >= 0 {
        assert(product >= 0) by (nonlinear_arith)
            requires
                product == amount * bps,
                amount >= 0,
                bps >= 0,
        ;
    } else {
        assert(product <= 0) by (nonlinear_arith)
            requires
                product == amount * bps,
                amount <= 0,
                bps >= 0,
        ;
    }
}

/// What a settlement stores, pays and announces, given the transfers it makes.
/// The token is looked for if there are any.
pub open spec fn settled_with(pre: Env, post: Env, id: Symbol, transfers: Seq<HostCall>) -> bool {
    let record = storage(pre).disputes[id];
    let now = storage(post).disputes[id].settled_at;
    let asked = if transfers.len() > 0 {
        seq![HostCall::IsContract(record.token, true)]
    } else {
        seq![]
    };
    &&& storage(post).disputes =~= storage(pre).disputes.insert(
        id,
        (DisputeRecord { status: 3, settled_at: now, ..record }),
    )
    &&& same_but_for_disputes(storage(pre), storage(post))
    &&& host_calls(post) =~= host_calls(pre) + seq![
        HostCall::Read(DataKey::Paused),
        HostCall::Read(DataKey::Dispute(id)),
    ] + asked + transfers + seq![
        HostCall::Clock(now),
        HostCall::Write(DataKey::Dispute(id)),
        HostCall::Publish(
            seq![Topic::Name("DspSettle"@), Topic::Id(id)],
            Payload::Payout(record.outcome, record.amount),
        ),
    ]
}

/// A transfer out of the contract that the token contract made.
pub open spec fn paid_out(pre: Env, id: Symbol, to: Address, amount: int) -> HostCall {
    HostCall::Transfer {
        token: storage(pre).disputes[id].token,
        from: contract_address(pre),
        to,
        amount: amount as i128,
        done: true,
    }
}

/// What a settlement stores, pays and announces: on a refund the disputer gets
/// the whole amount, on a release the respondent does. On a split the respondent
/// gets the basis points' share, rounded towards nothing, the disputer gets the
/// rest, and whoever would get nothing is not paid.
pub proof fn settlements_pay_as_decided(env: &mut Env, id: Symbol, share: int)
    requires
        call_ensures(DisputeContract::settle, (env, id), Ok::<(), DisputeError>(())),
        ({
            let record = storage(*old(env)).disputes[id];
            let product = record.amount * record.split_bps;
            &&& product >= 0 ==> share * 10_000 <= product < (share + 1) * 10_000
            &&& product <= 0 ==> (share - 1) * 10_000 < product <= share * 10_000
        }),
    ensures
        ({
            let record = storage(*old(env)).disputes[id];
            let whole = record.amount as int;
            let to_disputer = seq![paid_out(*old(env), id, record.disputer, whole)];
            let to_respondent = seq![paid_out(*old(env), id, record.respondent, whole)];
            let share_out = paid_out(*old(env), id, record.respondent, share);
            let rest_out = paid_out(*old(env), id, record.disputer, whole - share);
            let split = record.outcome == 2;
            let (pre, post) = (*old(env), *final(env));
            &&& record.outcome == 0 ==> settled_with(pre, post, id, to_disputer)
            &&& record.outcome == 1 ==> settled_with(pre, post, id, to_respondent)
            &&& split && 0 < share < whole ==> settled_with(
                pre,
                post,
                id,
                seq![share_out, rest_out],
            )
            &&& split && share > 0 && share >= whole ==> settled_with(
                pre,
                post,
                id,
                seq![share_out],
            )
            &&& split && share <= 0 && share < whole ==> settled_with(
                pre,
                post,
                id,
                seq![rest_out],
            )
            &&& split && share <= 0 && share >= whole ==> settled_with(pre, post, id, seq![])
            &&& split && 0 < whole && record.split_bps <= 10_000 ==> 0 <= share <= whole
        }),
{
    let stored = storage(*old(env));
    let record = stored.disputes[id];
    let contract = contract_address(*old(env));
    let dispute = stored.dispute(id)->0;
    let now = choose|now: u64| settles(*old(env), *final(env), id, now);
    assert(settles(*old(env), *final(env), id, now));
    let payouts = dispute.settlement()->0;
    if record.outcome == 2 {
        let (amount, bps) = (record.amount as int, record.split_bps as int);
        shares_are_rounded_towards_nothing(amount, bps);
        assert(share == share_of(amount, bps));
        if amount > 0 && bps <= 10_000 {
            shares_stay_within_the_amount(amount, bps);
        }
        if 0 < share < amount {
            assert(payouts =~= seq![
                Payout { to: record.respondent, amount: share as i128 },
                Payout { to: record.disputer, amount: (amount - share) as i128 },
            ]);
        } else if share > 0 {
            assert(payouts =~= seq![Payout { to: record.respondent, amount: share as i128 }]);
        } else if share < amount {
            assert(payouts =~= seq![
                Payout { to: record.disputer, amount: (amount - share) as i128 },
            ]);
        } else {
            assert(payouts =~= seq![]);
        }
    }
    let paid = paying_calls(contract, record.token, payouts);
    if payouts.len() == 1 {
        assert(paid =~= seq![
            paid_out(*old(env), id, payouts[0].to, payouts[0].amount as int),
        ]);
    } else if payouts.len() == 2 {
        assert(paid =~= seq![
            paid_out(*old(env), id, payouts[0].to, payouts[0].amount as int),
            paid_out(*old(env), id, payouts[1].to, payouts[1].amount as int),
        ]);
    } else {
        assert(paid =~= seq![]);
    }
    assert(settled_with(*old(env), *final(env), id, paid));
}

/// A transfer out of the contract that the token contract refused.
pub open spec fn refused_out(pre: Env, id: Symbol, to: Address, amount: int) -> HostCall {
    HostCall::Transfer {
        token: storage(pre).disputes[id].token,
        from: contract_address(pre),
        to,
        amount: amount as i128,
        done: false,
    }
}

/// A settlement that cannot go on has found no token, or has been refused a
/// transfer that the decision asks for. Only the respondent's share may have been
/// paid before that, and nothing is asked of the host after it.
pub proof fn stopped_settlements_pay_as_decided(env: &mut Env, id: Symbol, share: int)
    requires
        call_ensures(
            DisputeContract::settle,
            (env, id),
            Err::<(), DisputeError>(DisputeError::TransferFailed),
        ),
        ({
            let record = storage(*old(env)).disputes[id];
            let product = record.amount * record.split_bps;
            &&& product >= 0 ==> share * 10_000 <= product < (share + 1) * 10_000
            &&& product <= 0 ==> (share - 1) * 10_000 < product <= share * 10_000
        }),
    ensures
        ({
            let pre = *old(env);
            let record = storage(pre).disputes[id];
            let whole = record.amount as int;
            let rest = whole - share;
            let split = record.outcome == 2;
            let calls = host_calls(*final(env));
            let looked = host_calls(pre) + seq![
                HostCall::Read(DataKey::Paused),
                HostCall::Read(DataKey::Dispute(id)),
            ];
            let found = looked.push(HostCall::IsContract(record.token, true));
            &&& split ==> share > 0 || rest > 0
            &&& {
                ||| calls =~= looked.push(HostCall::IsContract(record.token, false))
                ||| record.outcome == 0 && calls =~= found.push(
                    refused_out(pre, id, record.disputer, whole),
                )
                ||| record.outcome == 1 && calls =~= found.push(
                    refused_out(pre, id, record.respondent, whole),
                )
                ||| split && share > 0 && calls =~= found.push(
                    refused_out(pre, id, record.respondent, share),
                )
                ||| split && share > 0 && rest > 0 && calls =~= found.push(
                    paid_out(pre, id, record.respondent, share),
                ).push(refused_out(pre, id, record.disputer, rest))
                ||| split && share <= 0 && calls =~= found.push(
                    refused_out(pre, id, record.disputer, rest),
                )
            }
        }),
        storage(*final(env)) == storage(*old(env)),
{
    let (pre, post) = (*old(env), *final(env));
    let stored = storage(pre);
    let record = stored.disputes[id];
    let contract = contract_address(pre);
    let payouts = (stored.dispute(id)->0).settlement()->0;
    let (amount, bps) = (record.amount as int, record.split_bps as int);
    shares_are_rounded_towards_nothing(amount, bps);
    assert(share == share_of(amount, bps));
    let looked = host_calls(pre) + seq![
        HostCall::Read(DataKey::Paused),
        HostCall::Read(DataKey::Dispute(id)),
    ];
    let found = looked.push(HostCall::IsContract(record.token, true));
    if finds_no_token(pre, post, id) {
        assert(host_calls(post) =~= looked.push(HostCall::IsContract(record.token, false)));
    } else {
        let paid = choose|paid: int| stops_paying(pre, post, id, paid);
        assert(stops_paying(pre, post, id, paid));
        let refused = paying_transfer(contract, record.token, payouts[paid], false);
        let made = paying_calls(contract, record.token, payouts.take(paid));
        if paid == 0 {
            assert(made =~= seq![]);
            assert(host_calls(post) =~= found.push(refused));
        } else {
            assert(made =~= seq![
                paid_out(pre, id, payouts[0].to, payouts[0].amount as int),
            ]);
            assert(host_calls(post) =~= found.push(made[0]).push(refused));
        }
    }
}

// ----------------------------------------------------------------------------
// The admin's operations
// ----------------------------------------------------------------------------

/// A contract is initialised once, whoever asks. It then has the given admin, is
/// open, and has no arbitrators.
pub proof fn initializing_sets_the_admin_once(
    env: &mut Env,
    admin: Address,
    result: Result<(), DisputeError>,
)
    requires
        call_ensures(DisputeContract::initialize, (env, admin), result),
    ensures
        result is Ok <==> storage(*old(env)).admin is None,
        result is Err <==> result == Err::<(), DisputeError>(DisputeError::AlreadyInitialized),
        result is Err ==> storage(*final(env)) == storage(*old(env)) && host_calls(*final(env))
            == host_calls(*old(env)) + seq![HostCall::Has(DataKey::Admin)],
        result is Ok ==> {
            let before = storage(*old(env));
            let after = storage(*final(env));
            &&& after.admin == Some(admin)
            &&& after.paused == Some(false)
            &&& after.arbitrators matches Some(list) && list.len() == 0
            &&& after.disputes == before.disputes
            &&& after.dispute_ids == before.dispute_ids
            &&& host_calls(*final(env)) == host_calls(*old(env)) + seq![
                HostCall::Has(DataKey::Admin),
                HostCall::Write(DataKey::Admin),
                HostCall::Write(DataKey::Paused),
                HostCall::Write(DataKey::Arbitrators),
                HostCall::Publish(seq![Topic::Name("Init"@)], Payload::Account(admin)),
            ]
        },
{
}

/// The admin is whoever is stored as such.
pub proof fn the_admin_is_named(env: &mut Env, result: Result<Address, DisputeError>)
    requires
        call_ensures(DisputeContract::get_admin, (env,), result),
    ensures
        storage(*old(env)).admin matches Some(admin) ==> result == Ok::<Address, DisputeError>(
            admin,
        ),
        storage(*old(env)).admin is None ==> result == Err::<Address, DisputeError>(
            DisputeError::NotInitialized,
        ),
        storage(*final(env)) == storage(*old(env)),
        host_calls(*final(env)) == host_calls(*old(env)) + seq![HostCall::Read(DataKey::Admin)],
{
}

/// The version of the events is the first one.
pub proof fn the_version_is_the_first(env: Env, version: u32)
    requires
        call_ensures(DisputeContract::version, (&env,), version),
    ensures
        version == 1,
{
}

/// Whether a call that is the admin's alone was answered as it should be: the
/// admin's is taken, another's is refused, and so is anyone's while there is no
/// admin. A refusal leaves nothing behind, and whoever calls must authorise.
pub open spec fn answered_as_the_admins(
    pre: Env,
    post: Env,
    caller: Address,
    result: Result<(), DisputeError>,
) -> bool {
    &&& result is Ok <==> storage(pre).admin == Some(caller)
    &&& result == Err::<(), DisputeError>(DisputeError::NotInitialized) <==> storage(
        pre,
    ).admin is None
    &&& result == Err::<(), DisputeError>(DisputeError::NotAuthorized) <==> storage(
        pre,
    ).admin is Some && storage(pre).admin != Some(caller)
    &&& result is Err ==> storage(post) == storage(pre)
    &&& result is Err ==> host_calls(post) =~= host_calls(pre) + seq![
        HostCall::RequireAuth(caller),
        HostCall::Read(DataKey::Admin),
    ]
}

/// Pausing sets the flag and unpausing clears it, for the admin alone.
pub proof fn the_admin_pauses_and_unpauses(
    env: &mut Env,
    admin: Address,
    result: Result<(), DisputeError>,
    pausing: bool,
)
    requires
        pausing ==> call_ensures(DisputeContract::pause, (env, admin), result),
        !pausing ==> call_ensures(DisputeContract::unpause, (env, admin), result),
    ensures
        answered_as_the_admins(*old(env), *final(env), admin, result),
        result is Ok ==> {
            let before = storage(*old(env));
            let after = storage(*final(env));
            &&& after.paused == Some(pausing)
            &&& after.admin == before.admin
            &&& after.arbitrators == before.arbitrators
            &&& after.disputes == before.disputes
            &&& after.dispute_ids == before.dispute_ids
        },
        result is Ok && pausing ==> host_calls(*final(env)) == host_calls(*old(env)) + seq![
            HostCall::RequireAuth(admin),
            HostCall::Read(DataKey::Admin),
            HostCall::Write(DataKey::Paused),
            HostCall::Publish(
                seq![Topic::Name("Paused"@), Topic::Account(admin)],
                Payload::Nothing,
            ),
        ],
        result is Ok && !pausing ==> host_calls(*final(env)) == host_calls(*old(env)) + seq![
            HostCall::RequireAuth(admin),
            HostCall::Read(DataKey::Admin),
            HostCall::Write(DataKey::Paused),
            HostCall::Publish(
                seq![Topic::Name("Unpaused"@), Topic::Account(admin)],
                Payload::Nothing,
            ),
        ],
{
}

/// Adding an arbitrator puts them at the end of the list, unless they are on it
/// already, for the admin alone.
pub proof fn the_admin_adds_arbitrators(
    env: &mut Env,
    admin: Address,
    arbitrator: Address,
    result: Result<(), DisputeError>,
)
    requires
        call_ensures(DisputeContract::add_arbitrator, (env, admin, arbitrator), result),
    ensures
        answered_as_the_admins(*old(env), *final(env), admin, result),
        result is Ok ==> {
            let before = storage(*old(env));
            let after = storage(*final(env));
            let listed = before.arbitrators matches Some(list) && list.contains(arbitrator);
            let made = host_calls(*final(env)).skip(host_calls(*old(env)).len() as int);
            let first = seq![
                HostCall::RequireAuth(admin),
                HostCall::Read(DataKey::Admin),
                HostCall::Read(DataKey::Arbitrators),
            ];
            let last = HostCall::Publish(
                seq![Topic::Name("ArbAdd"@)],
                Payload::Account(arbitrator),
            );
            &&& listed ==> after.arbitrators == before.arbitrators
            &&& listed ==> made =~= first.push(last)
            &&& !listed ==> made =~= first.push(HostCall::Write(DataKey::Arbitrators)).push(last)
            &&& before.arbitrators matches Some(list) ==> !listed ==> after.arbitrators == Some(
                list.push(arbitrator),
            )
            &&& before.arbitrators is None ==> after.arbitrators == Some(seq![arbitrator])
            &&& after.admin == before.admin
            &&& after.paused == before.paused
            &&& after.disputes == before.disputes
            &&& after.dispute_ids == before.dispute_ids
        },
{
    if result is Ok && storage(*old(env)).arbitrators is None {
        assert(Seq::<Address>::empty().push(arbitrator) =~= seq![arbitrator]);
    }
}

proof fn removals_keep_the_others(
    list: Seq<Address>,
    arbitrator: Address,
    keep: spec_fn(Address) -> bool,
)
    requires
        forall|who: Address| #[trigger] keep(who) <==> who != arbitrator,
    ensures
        list_without(list, arbitrator) == list.filter(keep),
    decreases list.len(),
{
    reveal(Seq::filter);
    if list.len() > 0 {
        removals_keep_the_others(list.drop_last(), arbitrator, keep);
        assert(keep(list.last()) <==> list.last() != arbitrator);
    }
}

/// Removing an arbitrator takes them off the list and leaves the others on it,
/// in their order, for the admin alone. `keep` tells the others apart.
pub proof fn the_admin_removes_arbitrators(
    env: &mut Env,
    admin: Address,
    arbitrator: Address,
    result: Result<(), DisputeError>,
    keep: spec_fn(Address) -> bool,
)
    requires
        forall|who: Address| #[trigger] keep(who) <==> who != arbitrator,
        call_ensures(DisputeContract::remove_arbitrator, (env, admin, arbitrator), result),
    ensures
        answered_as_the_admins(*old(env), *final(env), admin, result),
        result is Ok ==> {
            let before = storage(*old(env));
            let after = storage(*final(env));
            &&& before.arbitrators matches Some(list) ==> after.arbitrators == Some(
                list.filter(keep),
            )
            &&& before.arbitrators is None ==> after.arbitrators == Some(Seq::<Address>::empty())
            &&& after.admin == before.admin
            &&& after.paused == before.paused
            &&& after.disputes == before.disputes
            &&& after.dispute_ids == before.dispute_ids
            &&& host_calls(*final(env)) == host_calls(*old(env)) + seq![
                HostCall::RequireAuth(admin),
                HostCall::Read(DataKey::Admin),
                HostCall::Read(DataKey::Arbitrators),
                HostCall::Write(DataKey::Arbitrators),
                HostCall::Publish(seq![Topic::Name("ArbRem"@)], Payload::Account(arbitrator)),
            ]
        },
{
    reveal(Seq::filter);
    if let Some(list) = storage(*old(env)).arbitrators {
        removals_keep_the_others(list, arbitrator, keep);
    } else {
        assert(list_without(Seq::empty(), arbitrator) =~= Seq::<Address>::empty());
    }
}

/// Replacing the code is the admin's alone and touches nothing that is stored.
pub proof fn the_admin_replaces_the_code(
    env: &mut Env,
    admin: Address,
    hash: BytesN<32>,
    result: Result<(), DisputeError>,
)
    requires
        call_ensures(DisputeContract::upgrade, (env, admin, hash), result),
    ensures
        answered_as_the_admins(*old(env), *final(env), admin, result),
        storage(*final(env)) == storage(*old(env)),
        result is Ok ==> host_calls(*final(env)) == host_calls(*old(env)) + seq![
            HostCall::RequireAuth(admin),
            HostCall::Read(DataKey::Admin),
            HostCall::UpdateCode(hash),
        ],
{
}

// ----------------------------------------------------------------------------
// Lookups
// ----------------------------------------------------------------------------

/// Whether a dispute is what a record says, field by field.
pub open spec fn is_as_recorded(dispute: Dispute, record: DisputeRecord) -> bool {
    &&& dispute.id == record.id
    &&& dispute.disputer == record.disputer
    &&& dispute.respondent == record.respondent
    &&& dispute.token == record.token
    &&& dispute.amount == record.amount
    &&& is_phase(dispute.status, record.status)
    &&& is_outcome(dispute.outcome, record.outcome)
    &&& dispute.split_bps == record.split_bps
    &&& dispute.arbitrator == record.arbitrator
    &&& dispute.filed_at == record.filed_at
    &&& dispute.settled_at == record.settled_at
    &&& dispute.disputer_evidence == record.disputer_evidence
    &&& dispute.respondent_evidence == record.respondent_evidence
}

/// Whether a phase has a number.
pub open spec fn is_phase(status: DisputeStatus, number: u32) -> bool {
    &&& status == DisputeStatus::Open <==> number == 0
    &&& status == DisputeStatus::Evidence <==> number == 1
    &&& status == DisputeStatus::Decided <==> number == 2
    &&& status == DisputeStatus::Settled <==> number == 3
}

/// Whether an outcome has a number.
pub open spec fn is_outcome(outcome: DisputeOutcome, number: u32) -> bool {
    &&& outcome == DisputeOutcome::RefundDisputer <==> number == 0
    &&& outcome == DisputeOutcome::ReleaseRespondent <==> number == 1
    &&& outcome == DisputeOutcome::Split <==> number == 2
}

/// A dispute is found under its id, as it is recorded, in one read.
pub proof fn disputes_are_found_as_recorded(env: &mut Env, id: Symbol, found: Option<Dispute>)
    requires
        call_ensures(DisputeContract::get_dispute, (env, id), found),
    ensures
        found is Some <==> storage(*old(env)).disputes.contains_key(id) && is_readable(
            storage(*old(env)).disputes[id],
        ),
        found matches Some(dispute) ==> is_as_recorded(dispute, storage(*old(env)).disputes[id]),
        storage(*final(env)) == storage(*old(env)),
        host_calls(*final(env)) == host_calls(*old(env)) + seq![
            HostCall::Read(DataKey::Dispute(id)),
        ],
{
}

/// All dispute ids are listed, in the order in which they are stored, in one read.
pub proof fn all_ids_are_listed(env: &mut Env, ids: soroban_sdk::Vec<Symbol>)
    requires
        call_ensures(DisputeContract::list_disputes, (env,), ids),
    ensures
        storage(*old(env)).dispute_ids matches Some(stored) ==> symbol_items(ids).len()
            == stored.len() && forall|i: int|
            0 <= i < stored.len() ==> #[trigger] symbol_items(ids)[i] == Some(stored[i]),
        storage(*old(env)).dispute_ids is None ==> symbol_items(ids).len() == 0,
        storage(*final(env)) == storage(*old(env)),
        host_calls(*final(env)) == host_calls(*old(env)) + seq![
            HostCall::Read(DataKey::DisputeList),
        ],
{
    if let Some(stored) = storage(*old(env)).dispute_ids {
        assert forall|i: int| 0 <= i < stored.len() implies #[trigger] symbol_items(ids)[i]
            == Some(stored[i]) by {
            assert(symbol_items(ids)[i] is Some);
            assert(symbol_items(ids).map_values(|item: Option<Symbol>| item->0)[i] == stored[i]);
        }
    } else {
        assert(symbol_items(ids).map_values(|item: Option<Symbol>| item->0).len() == 0);
    }
}

/// All arbitrators are listed, in the order in which they are stored, in one read.
pub proof fn all_arbitrators_are_listed(env: &mut Env, list: soroban_sdk::Vec<Address>)
    requires
        call_ensures(DisputeContract::list_arbitrators, (env,), list),
    ensures
        storage(*old(env)).arbitrators matches Some(stored) ==> address_items(list).len()
            == stored.len() && forall|i: int|
            0 <= i < stored.len() ==> #[trigger] address_items(list)[i] == Some(stored[i]),
        storage(*old(env)).arbitrators is None ==> address_items(list).len() == 0,
        storage(*final(env)) == storage(*old(env)),
        host_calls(*final(env)) == host_calls(*old(env)) + seq![
            HostCall::Read(DataKey::Arbitrators),
        ],
{
    if let Some(stored) = storage(*old(env)).arbitrators {
        assert forall|i: int| 0 <= i < stored.len() implies #[trigger] address_items(list)[i]
            == Some(stored[i]) by {
            assert(address_items(list)[i] is Some);
            assert(address_items(list).map_values(|item: Option<Address>| item->0)[i]
                == stored[i]);
        }
    } else {
        assert(address_items(list).map_values(|item: Option<Address>| item->0).len() == 0);
    }
}

} // verus!
