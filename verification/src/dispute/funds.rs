//! Where the tokens go: what a settlement pays, and that the contract holds
//! what its open disputes have locked.

use soroban_sdk::{Address, Symbol};
use vstd::prelude::*;

use crate::dispute::lifecycle::{due, share_of, Payout};
use crate::dispute::rules::{
    adding_calls, arbitrator_added, arbitrator_removed, closing_calls, dispute_filed,
    evidence_calls, evidence_checks, filing_calls, filing_checks, filing_refusal, initialize_calls,
    initialized, pausing_calls, paying_calls, removing_calls, ruling_calls, ruling_checks,
    settling_checks, settling_refusal, token_check,
};
use crate::dispute::types::{Dispute, DisputeOutcome, DisputeStatus, HostCall, Storage, WHOLE_BPS};

verus! {

/// What payouts come to together.
pub open spec fn total(payouts: Seq<Payout>) -> int
    decreases payouts.len(),
{
    if payouts.len() == 0 {
        0
    } else {
        total(payouts.drop_last()) + payouts.last().amount
    }
}

/// A share is rounded down: it is the most whole tokens that `bps` basis points
/// of the amount cover.
pub proof fn shares_are_rounded_down(amount: int, bps: int)
    requires
        amount >= 0,
        bps >= 0,
    ensures
        share_of(amount, bps) * WHOLE_BPS <= amount * bps < (share_of(amount, bps) + 1) * WHOLE_BPS,
{
    assert(amount * bps >= 0) by (nonlinear_arith)
        requires
            amount >= 0,
            bps >= 0,
    ;
}

/// A share lies between nothing and the amount; no basis points give nothing,
/// all of them give the amount.
pub proof fn shares_stay_within_the_amount(amount: int, bps: int)
    requires
        amount >= 0,
        0 <= bps <= WHOLE_BPS,
    ensures
        0 <= share_of(amount, bps) <= amount,
        share_of(amount, 0) == 0,
        share_of(amount, WHOLE_BPS as int) == amount,
{
    shares_are_rounded_down(amount, bps);
    assert(0 <= amount * bps <= amount * WHOLE_BPS) by (nonlinear_arith)
        requires
            amount >= 0,
            0 <= bps <= WHOLE_BPS,
    ;
    assert(amount * 0 == 0) by (nonlinear_arith);
}

/// More basis points never give less.
pub proof fn shares_grow_with_the_basis_points(amount: int, fewer: int, more: int)
    requires
        amount >= 0,
        0 <= fewer <= more,
    ensures
        share_of(amount, fewer) <= share_of(amount, more),
{
    assert(0 <= amount * fewer <= amount * more) by (nonlinear_arith)
        requires
            amount >= 0,
            0 <= fewer <= more,
    ;
}

/// A settlement pays what was locked, no more and no less. Each payout goes to
/// one of the parties and is positive.
pub proof fn settlements_pay_what_was_locked(dispute: Dispute)
    requires
        dispute.sound(),
        dispute.settlement() is Some,
    ensures
        total(dispute.settlement()->0) == dispute.amount,
        forall|i: int|
            0 <= i < (dispute.settlement()->0).len() ==> {
                let payout = #[trigger] (dispute.settlement()->0)[i];
                &&& 0 < payout.amount <= dispute.amount
                &&& dispute.has_party(payout.to)
            },
{
    reveal_with_fuel(total, 3);
    let payouts = dispute.settlement()->0;
    if dispute.outcome == DisputeOutcome::Split {
        shares_stay_within_the_amount(dispute.amount as int, dispute.split_bps as int);
        let first = due(dispute.respondent, dispute.respondent_share());
        let second = due(dispute.disputer, dispute.disputer_share());
        assert(payouts == first + second);
        assert(first + Seq::<Payout>::empty() =~= first);
        assert(Seq::<Payout>::empty() + second =~= second);
        if first.len() == 1 && second.len() == 1 {
            assert(payouts.drop_last() =~= first);
            assert(first.drop_last() =~= Seq::<Payout>::empty());
        } else {
            assert(payouts.drop_last() =~= Seq::<Payout>::empty());
        }
    } else {
        assert(payouts.drop_last() =~= Seq::<Payout>::empty());
    }
}

/// What each party gets: everything goes to the disputer on a refund, to the
/// respondent on a release; on a split the respondent's share is what the basis
/// points cover, the respondent is paid first, and whoever is due nothing is
/// not paid.
pub proof fn settlements_follow_the_decision(dispute: Dispute)
    requires
        dispute.sound(),
        dispute.settlement() is Some,
    ensures
        dispute.outcome == DisputeOutcome::RefundDisputer ==> dispute.settlement()->0 == seq![
            Payout { to: dispute.disputer, amount: dispute.amount },
        ],
        dispute.outcome == DisputeOutcome::ReleaseRespondent ==> dispute.settlement()->0 == seq![
            Payout { to: dispute.respondent, amount: dispute.amount },
        ],
        dispute.outcome == DisputeOutcome::Split ==> {
            let share = share_of(dispute.amount as int, dispute.split_bps as int);
            &&& share == 0 ==> dispute.settlement()->0 == seq![
                Payout { to: dispute.disputer, amount: dispute.amount },
            ]
            &&& 0 < share < dispute.amount ==> dispute.settlement()->0 == seq![
                Payout { to: dispute.respondent, amount: share as i128 },
                Payout { to: dispute.disputer, amount: (dispute.amount - share) as i128 },
            ]
            &&& share == dispute.amount ==> dispute.settlement()->0 == seq![
                Payout { to: dispute.respondent, amount: dispute.amount },
            ]
        },
{
    if dispute.outcome == DisputeOutcome::Split {
        shares_stay_within_the_amount(dispute.amount as int, dispute.split_bps as int);
        let share = dispute.respondent_share();
        if share == 0 {
            assert(dispute.settlement()->0 =~= seq![
                Payout { to: dispute.disputer, amount: dispute.amount },
            ]);
        } else if share == dispute.amount {
            assert(dispute.settlement()->0 =~= seq![
                Payout { to: dispute.respondent, amount: dispute.amount },
            ]);
        } else {
            assert(dispute.settlement()->0 =~= seq![
                Payout { to: dispute.respondent, amount: share as i128 },
                Payout { to: dispute.disputer, amount: (dispute.amount - share) as i128 },
            ]);
        }
    }
}

/// A settlement can always be computed, unless a split of so large an amount is
/// asked for that the amount times the basis points is no `i128`.
pub proof fn settlements_can_be_computed(dispute: Dispute)
    requires
        dispute.sound(),
    ensures
        dispute.settlement() is None <==> dispute.outcome == DisputeOutcome::Split && dispute.amount
            * dispute.split_bps > i128::MAX,
        dispute.amount * WHOLE_BPS <= i128::MAX ==> dispute.settlement() is Some,
{
    if dispute.outcome == DisputeOutcome::Split {
        shares_stay_within_the_amount(dispute.amount as int, dispute.split_bps as int);
        let amount = dispute.amount as int;
        let bps = dispute.split_bps as int;
        assert(0 <= amount * bps <= amount * WHOLE_BPS) by (nonlinear_arith)
            requires
                amount >= 0,
                0 <= bps <= WHOLE_BPS,
        ;
    }
}

// ----------------------------------------------------------------------------
// What is locked and what is held
// ----------------------------------------------------------------------------

/// What a dispute has locked of a token: its amount, until it is settled.
pub open spec fn locked_by(dispute: Option<Dispute>, token: Address) -> int {
    match dispute {
        Some(dispute) => if dispute.token == token && dispute.status != DisputeStatus::Settled {
            dispute.amount as int
        } else {
            0
        },
        None => 0,
    }
}

/// What the disputes with the given ids have locked of a token together.
pub open spec fn locked_among(stored: Storage, ids: Seq<Symbol>, token: Address) -> int
    decreases ids.len(),
{
    if ids.len() == 0 {
        0
    } else {
        locked_among(stored, ids.drop_last(), token) + locked_by(stored.dispute(ids.last()), token)
    }
}

/// What all disputes have locked of a token together.
pub open spec fn locked(stored: Storage, token: Address) -> int {
    locked_among(stored, stored.id_list(), token)
}

/// What one request brings an account of a token, as the token contract reports
/// it; less than nothing if it takes away.
pub open spec fn received_by(call: HostCall, token: Address, account: Address) -> int {
    match call {
        HostCall::Transfer { token: moved, from, to, amount, done } => if done && moved == token {
            (if to == account { amount as int } else { 0 }) - (if from == account {
                amount as int
            } else {
                0
            })
        } else {
            0
        },
        _ => 0,
    }
}

/// What requests bring an account of a token together.
pub open spec fn received(calls: Seq<HostCall>, token: Address, account: Address) -> int
    decreases calls.len(),
{
    if calls.len() == 0 {
        0
    } else {
        received(calls.drop_last(), token, account) + received_by(calls.last(), token, account)
    }
}

/// What two runs of requests bring together is what each of them brings.
pub proof fn received_adds_up(
    first: Seq<HostCall>,
    second: Seq<HostCall>,
    token: Address,
    account: Address,
)
    ensures
        received(first + second, token, account) == received(first, token, account) + received(
            second,
            token,
            account,
        ),
    decreases second.len(),
{
    if second.len() == 0 {
        assert(first + second =~= first);
    } else {
        assert((first + second).drop_last() =~= first + second.drop_last());
        received_adds_up(first, second.drop_last(), token, account);
    }
}

proof fn moving_nothing_brings_nothing(calls: Seq<HostCall>, token: Address, account: Address)
    requires
        forall|i: int| 0 <= i < calls.len() ==> !(#[trigger] calls[i] is Transfer),
    ensures
        received(calls, token, account) == 0,
    decreases calls.len(),
{
    if calls.len() > 0 {
        assert forall|i: int| 0 <= i < calls.drop_last().len() implies !(
        #[trigger] calls.drop_last()[i] is Transfer) by {
            assert(calls.drop_last()[i] == calls[i]);
        }
        moving_nothing_brings_nothing(calls.drop_last(), token, account);
        assert(!(calls[calls.len() - 1] is Transfer));
    }
}

/// Writing under an id that is not among the given ones changes nothing in what they lock.
proof fn other_ids_lock_the_same(
    stored: Storage,
    after: Storage,
    ids: Seq<Symbol>,
    token: Address,
)
    requires
        forall|i: int| 0 <= i < ids.len() ==> after.dispute(#[trigger] ids[i]) == stored.dispute(
            ids[i],
        ),
    ensures
        locked_among(after, ids, token) == locked_among(stored, ids, token),
    decreases ids.len(),
{
    if ids.len() > 0 {
        assert forall|i: int| 0 <= i < ids.drop_last().len() implies after.dispute(
            #[trigger] ids.drop_last()[i],
        ) == stored.dispute(ids.drop_last()[i]) by {
            assert(ids.drop_last()[i] == ids[i]);
        }
        other_ids_lock_the_same(stored, after, ids.drop_last(), token);
        assert(ids[ids.len() - 1] == ids.last());
    }
}

/// Writing under one of the given ids changes what they lock by what that dispute locks.
proof fn one_id_locks_differently(
    stored: Storage,
    id: Symbol,
    dispute: Dispute,
    ids: Seq<Symbol>,
    token: Address,
)
    requires
        ids.no_duplicates(),
        ids.contains(id),
    ensures
        locked_among(stored.with_dispute(id, dispute), ids, token) == locked_among(
            stored,
            ids,
            token,
        ) - locked_by(stored.dispute(id), token) + locked_by(Some(dispute), token),
    decreases ids.len(),
{
    let after = stored.with_dispute(id, dispute);
    assert(dispute.encoded().decoded() == Some(dispute));
    let rest = ids.drop_last();
    if ids.last() == id {
        assert forall|i: int| 0 <= i < rest.len() implies after.dispute(#[trigger] rest[i])
            == stored.dispute(rest[i]) by {
            assert(rest[i] == ids[i] && ids[i] != ids[ids.len() - 1]);
        }
        other_ids_lock_the_same(stored, after, rest, token);
    } else {
        let at = choose|i: int| 0 <= i < ids.len() && ids[i] == id;
        assert(rest[at] == id);
        one_id_locks_differently(stored, id, dispute, rest, token);
    }
}

/// Filing a dispute locks what the contract receives for it, of every token,
/// unless the contract disputes with itself.
pub proof fn filing_locks_what_is_received(
    stored: Storage,
    contract: Address,
    dispute: Dispute,
    token: Address,
)
    requires
        stored.sound(),
        filing_refusal(stored, dispute.id, dispute.amount) is None,
        dispute.status == DisputeStatus::Open,
        dispute.disputer != contract,
    ensures
        locked(dispute_filed(stored, dispute), token) - locked(stored, token) == received(
            filing_checks(stored, dispute.id, dispute.disputer, dispute.amount) + filing_calls(
                contract,
                dispute,
            ),
            token,
            contract,
        ),
{
    let after = dispute_filed(stored, dispute);
    let ids = stored.id_list();
    assert(dispute.encoded().decoded() == Some(dispute));
    assert(!ids.contains(dispute.id));
    assert forall|i: int| 0 <= i < ids.len() implies after.dispute(#[trigger] ids[i])
        == stored.dispute(ids[i]) by {
        assert(ids.contains(ids[i]));
    }
    other_ids_lock_the_same(stored, after, ids, token);
    assert(ids.push(dispute.id).drop_last() =~= ids);

    let checks = filing_checks(stored, dispute.id, dispute.disputer, dispute.amount);
    let calls = filing_calls(contract, dispute);
    received_adds_up(checks, calls, token, contract);
    moving_nothing_brings_nothing(checks, token, contract);
    let asked = seq![calls[0]];
    let lock = seq![calls[1]];
    let rest = calls.skip(2);
    assert(calls =~= asked + lock + rest);
    received_adds_up(asked + lock, rest, token, contract);
    received_adds_up(asked, lock, token, contract);
    moving_nothing_brings_nothing(asked, token, contract);
    moving_nothing_brings_nothing(rest, token, contract);
    assert(lock.drop_last() =~= Seq::<HostCall>::empty());
    reveal_with_fuel(received, 2);
}

proof fn payouts_are_taken_away(
    contract: Address,
    payer_token: Address,
    payouts: Seq<Payout>,
    token: Address,
)
    requires
        forall|i: int| 0 <= i < payouts.len() ==> (#[trigger] payouts[i]).to != contract,
    ensures
        received(paying_calls(contract, payer_token, payouts), token, contract) == (if token
            == payer_token {
            -total(payouts)
        } else {
            0
        }),
    decreases payouts.len(),
{
    let calls = paying_calls(contract, payer_token, payouts);
    if payouts.len() > 0 {
        assert(calls.drop_last() =~= paying_calls(contract, payer_token, payouts.drop_last()));
        assert forall|i: int| 0 <= i < payouts.drop_last().len() implies (
        #[trigger] payouts.drop_last()[i]).to != contract by {
            assert(payouts.drop_last()[i] == payouts[i]);
        }
        payouts_are_taken_away(contract, payer_token, payouts.drop_last(), token);
        assert(payouts[payouts.len() - 1].to != contract);
    }
}

/// Settling a dispute pays out what it had locked, of every token, unless the
/// contract is itself a party.
pub proof fn settling_pays_out_what_was_locked(
    stored: Storage,
    contract: Address,
    id: Symbol,
    now: u64,
    token: Address,
)
    requires
        stored.sound(),
        settling_refusal(stored, id) is None,
        !(stored.dispute(id)->0).has_party(contract),
    ensures
        ({
            let dispute = stored.dispute(id)->0;
            locked(stored.with_dispute(id, dispute.closed(now)), token) - locked(stored, token)
                == received(
                settling_checks(stored, id) + token_check(dispute.token, dispute.settlement()->0)
                    + paying_calls(contract, dispute.token, dispute.settlement()->0)
                    + closing_calls(dispute, id, now),
                token,
                contract,
            )
        }),
{
    let dispute = stored.dispute(id)->0;
    let payouts = dispute.settlement()->0;
    assert(stored.disputes.contains_key(id));
    one_id_locks_differently(stored, id, dispute.closed(now), stored.id_list(), token);

    let checks = settling_checks(stored, id) + token_check(dispute.token, payouts);
    let paying = paying_calls(contract, dispute.token, payouts);
    let closing = closing_calls(dispute, id, now);
    received_adds_up(checks + paying, closing, token, contract);
    received_adds_up(checks, paying, token, contract);
    moving_nothing_brings_nothing(checks, token, contract);
    moving_nothing_brings_nothing(closing, token, contract);
    settlements_pay_what_was_locked(dispute);
    payouts_are_taken_away(contract, dispute.token, payouts, token);
}

/// Evidence and decisions leave what is locked as it is, and transfer nothing.
pub proof fn evidence_and_decisions_move_nothing(
    stored: Storage,
    id: Symbol,
    caller: Address,
    evidence: soroban_sdk::String,
    arbitrator: Address,
    outcome: DisputeOutcome,
    split_bps: u32,
    token: Address,
    account: Address,
)
    requires
        stored.sound(),
        stored.dispute(id) is Some,
        (stored.dispute(id)->0).status.undecided(),
    ensures
        locked(
            stored.with_dispute(id, (stored.dispute(id)->0).with_evidence(caller, evidence)),
            token,
        ) == locked(stored, token),
        locked(
            stored.with_dispute(
                id,
                (stored.dispute(id)->0).ruled(arbitrator, outcome, split_bps),
            ),
            token,
        ) == locked(stored, token),
        received(
            evidence_checks(stored, id, caller) + evidence_calls(id, caller),
            token,
            account,
        ) == 0,
        received(
            ruling_checks(stored, id, arbitrator, outcome, split_bps) + ruling_calls(
                id,
                arbitrator,
                outcome,
                split_bps,
            ),
            token,
            account,
        ) == 0,
{
    moving_nothing_brings_nothing(
        evidence_checks(stored, id, caller) + evidence_calls(id, caller),
        token,
        account,
    );
    moving_nothing_brings_nothing(
        ruling_checks(stored, id, arbitrator, outcome, split_bps) + ruling_calls(
            id,
            arbitrator,
            outcome,
            split_bps,
        ),
        token,
        account,
    );
    let dispute = stored.dispute(id)->0;
    assert(stored.disputes.contains_key(id));
    one_id_locks_differently(
        stored,
        id,
        dispute.with_evidence(caller, evidence),
        stored.id_list(),
        token,
    );
    one_id_locks_differently(
        stored,
        id,
        dispute.ruled(arbitrator, outcome, split_bps),
        stored.id_list(),
        token,
    );
}

/// The admin's operations leave what is locked as it is, and transfer nothing.
pub proof fn admin_operations_move_nothing(
    stored: Storage,
    admin: Address,
    arbitrator: Address,
    paused: bool,
    event: Seq<char>,
    token: Address,
    account: Address,
)
    ensures
        locked(initialized(stored, admin), token) == locked(stored, token),
        locked(stored.with_paused(paused), token) == locked(stored, token),
        locked(arbitrator_added(stored, arbitrator), token) == locked(stored, token),
        locked(arbitrator_removed(stored, arbitrator), token) == locked(stored, token),
        received(initialize_calls(admin), token, account) == 0,
        received(pausing_calls(admin, event), token, account) == 0,
        received(adding_calls(stored, admin, arbitrator), token, account) == 0,
        received(removing_calls(admin, arbitrator), token, account) == 0,
{
    let ids = stored.id_list();
    other_ids_lock_the_same(stored, initialized(stored, admin), ids, token);
    other_ids_lock_the_same(stored, stored.with_paused(paused), ids, token);
    other_ids_lock_the_same(stored, arbitrator_added(stored, arbitrator), ids, token);
    other_ids_lock_the_same(stored, arbitrator_removed(stored, arbitrator), ids, token);
    moving_nothing_brings_nothing(initialize_calls(admin), token, account);
    moving_nothing_brings_nothing(pausing_calls(admin, event), token, account);
    moving_nothing_brings_nothing(adding_calls(stored, admin, arbitrator), token, account);
    moving_nothing_brings_nothing(removing_calls(admin, arbitrator), token, account);
}

} // verus!
