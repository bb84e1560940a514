//! When the dispute contract refuses an invocation, and which requests it makes
//! of the host when it does not.

use soroban_sdk::{Address, Symbol};
use vstd::prelude::*;

use crate::dispute::lifecycle::Payout;
use crate::dispute::types::{
    DataKey, Dispute, DisputeError, DisputeOutcome, DisputeStatus, HostCall, Payload, Storage,
    Topic, TTL_EXTEND_TO, TTL_THRESHOLD, WHOLE_BPS,
};

verus! {

/// Why `initialize` is refused.
pub open spec fn initialize_refusal(stored: Storage) -> Option<DisputeError> {
    if stored.admin is Some {
        Some(DisputeError::AlreadyInitialized)
    } else {
        None
    }
}

/// The storage that `initialize` leaves.
pub open spec fn initialized(stored: Storage, admin: Address) -> Storage {
    Storage {
        admin: Some(admin),
        paused: Some(false),
        arbitrators: Some(Seq::empty()),
        ..stored
    }
}

/// The requests of an `initialize` that is not refused.
pub open spec fn initialize_calls(admin: Address) -> Seq<HostCall> {
    seq![
        HostCall::Has(DataKey::Admin),
        HostCall::Write(DataKey::Admin),
        HostCall::Write(DataKey::Paused),
        HostCall::Write(DataKey::Arbitrators),
        HostCall::Publish(seq![Topic::Name("Init"@)], Payload::Account(admin)),
    ]
}

/// Why a call that is the admin's alone is refused.
pub open spec fn admin_refusal(stored: Storage, caller: Address) -> Option<DisputeError> {
    if stored.admin is None {
        Some(DisputeError::NotInitialized)
    } else if stored.admin != Some(caller) {
        Some(DisputeError::NotAuthorized)
    } else {
        None
    }
}

/// The requests that find out whether the caller is the admin.
pub open spec fn admin_checks(caller: Address) -> Seq<HostCall> {
    seq![HostCall::RequireAuth(caller), HostCall::Read(DataKey::Admin)]
}

/// The requests of a `pause` or an `unpause` that is not refused.
pub open spec fn pausing_calls(admin: Address, event: Seq<char>) -> Seq<HostCall> {
    admin_checks(admin) + seq![
        HostCall::Write(DataKey::Paused),
        HostCall::Publish(seq![Topic::Name(event), Topic::Account(admin)], Payload::Nothing),
    ]
}

/// The arbitrators after one is added: nobody is listed twice.
pub open spec fn list_with(list: Seq<Address>, arbitrator: Address) -> Seq<Address> {
    if list.contains(arbitrator) {
        list
    } else {
        list.push(arbitrator)
    }
}

/// The arbitrators after one is removed: the others stay, in order.
pub open spec fn list_without(list: Seq<Address>, arbitrator: Address) -> Seq<Address> {
    list.filter(|listed: Address| listed != arbitrator)
}

/// The storage that `add_arbitrator` leaves.
pub open spec fn arbitrator_added(stored: Storage, arbitrator: Address) -> Storage {
    if stored.arbitrator_list().contains(arbitrator) {
        stored
    } else {
        stored.with_arbitrators(list_with(stored.arbitrator_list(), arbitrator))
    }
}

/// The requests of an `add_arbitrator` that is not refused: the list is written only if it grows.
pub open spec fn adding_calls(stored: Storage, admin: Address, arbitrator: Address) -> Seq<
    HostCall,
> {
    admin_checks(admin) + seq![HostCall::Read(DataKey::Arbitrators)] + (
    if stored.arbitrator_list().contains(arbitrator) {
        Seq::empty()
    } else {
        seq![HostCall::Write(DataKey::Arbitrators)]
    }) + seq![HostCall::Publish(seq![Topic::Name("ArbAdd"@)], Payload::Account(arbitrator))]
}

/// The storage that `remove_arbitrator` leaves.
pub open spec fn arbitrator_removed(stored: Storage, arbitrator: Address) -> Storage {
    stored.with_arbitrators(list_without(stored.arbitrator_list(), arbitrator))
}

/// The requests of a `remove_arbitrator` that is not refused.
pub open spec fn removing_calls(admin: Address, arbitrator: Address) -> Seq<HostCall> {
    admin_checks(admin) + seq![
        HostCall::Read(DataKey::Arbitrators),
        HostCall::Write(DataKey::Arbitrators),
        HostCall::Publish(seq![Topic::Name("ArbRem"@)], Payload::Account(arbitrator)),
    ]
}

/// Why `file_dispute` is refused by this contract.
pub open spec fn filing_refusal(stored: Storage, id: Symbol, amount: i128) -> Option<DisputeError> {
    if stored.is_paused() {
        Some(DisputeError::Paused)
    } else if amount <= 0 {
        Some(DisputeError::AmountNotPositive)
    } else if stored.disputes.contains_key(id) {
        Some(DisputeError::DuplicateDispute)
    } else {
        None
    }
}

/// The requests that find out whether a dispute can be filed.
pub open spec fn filing_checks(stored: Storage, id: Symbol, disputer: Address, amount: i128) -> Seq<
    HostCall,
> {
    seq![HostCall::RequireAuth(disputer), HostCall::Read(DataKey::Paused)] + (if stored.is_paused()
        || amount <= 0 {
        Seq::empty()
    } else {
        seq![HostCall::Has(DataKey::Dispute(id))]
    })
}

/// The transfer that locks the amount of a new dispute, and whether the token contract made it.
pub open spec fn locking_transfer(
    contract: Address,
    disputer: Address,
    token: Address,
    amount: i128,
    done: bool,
) -> HostCall {
    HostCall::Transfer { token, from: disputer, to: contract, amount, done }
}

/// The requests that follow the checks when the amount of a new dispute cannot be
/// locked: no contract stands at the token's address, or the token contract
/// refuses the transfer.
pub open spec fn refused_lock(
    contract: Address,
    disputer: Address,
    token: Address,
    amount: i128,
    found: bool,
) -> Seq<HostCall> {
    if found {
        seq![
            HostCall::IsContract(token, true),
            locking_transfer(contract, disputer, token, amount, false),
        ]
    } else {
        seq![HostCall::IsContract(token, false)]
    }
}

/// The requests that follow the checks when a dispute is filed.
pub open spec fn filing_calls(contract: Address, dispute: Dispute) -> Seq<HostCall> {
    seq![
        HostCall::IsContract(dispute.token, true),
        locking_transfer(contract, dispute.disputer, dispute.token, dispute.amount, true),
        HostCall::Clock(dispute.filed_at),
        HostCall::Write(DataKey::Dispute(dispute.id)),
        HostCall::ExtendTtl(DataKey::Dispute(dispute.id), TTL_THRESHOLD, TTL_EXTEND_TO),
        HostCall::Read(DataKey::DisputeList),
        HostCall::Write(DataKey::DisputeList),
        HostCall::ExtendTtl(DataKey::DisputeList, TTL_THRESHOLD, TTL_EXTEND_TO),
        HostCall::Publish(
            seq![
                Topic::Name("DspOpen"@),
                Topic::Id(dispute.id),
                Topic::Account(dispute.disputer),
            ],
            Payload::Claim(dispute.respondent, dispute.amount),
        ),
    ]
}

/// The storage after a dispute is filed.
pub open spec fn dispute_filed(stored: Storage, dispute: Dispute) -> Storage {
    stored.with_dispute(dispute.id, dispute).with_listed(dispute.id)
}

/// Why `submit_evidence` is refused.
pub open spec fn evidence_refusal(stored: Storage, id: Symbol, caller: Address) -> Option<
    DisputeError,
> {
    if stored.is_paused() {
        Some(DisputeError::Paused)
    } else {
        match stored.dispute(id) {
            None => Some(DisputeError::DisputeNotFound),
            Some(dispute) => if !dispute.has_party(caller) {
                Some(DisputeError::NotAParty)
            } else if !dispute.status.undecided() {
                Some(DisputeError::EvidenceClosed)
            } else {
                None
            },
        }
    }
}

/// The requests that find out whether evidence can be submitted.
pub open spec fn evidence_checks(stored: Storage, id: Symbol, caller: Address) -> Seq<HostCall> {
    seq![HostCall::RequireAuth(caller), HostCall::Read(DataKey::Paused)] + (if stored.is_paused() {
        Seq::empty()
    } else {
        seq![HostCall::Read(DataKey::Dispute(id))]
    })
}

/// The requests that follow the checks when evidence is submitted.
pub open spec fn evidence_calls(id: Symbol, caller: Address) -> Seq<HostCall> {
    seq![
        HostCall::Write(DataKey::Dispute(id)),
        HostCall::ExtendTtl(DataKey::Dispute(id), TTL_THRESHOLD, TTL_EXTEND_TO),
        HostCall::Publish(
            seq![Topic::Name("DspEvid"@), Topic::Id(id), Topic::Account(caller)],
            Payload::Nothing,
        ),
    ]
}

/// Whether a decision gives the respondent more than the whole.
pub open spec fn split_out_of_range(outcome: DisputeOutcome, split_bps: u32) -> bool {
    outcome == DisputeOutcome::Split && split_bps > WHOLE_BPS
}

/// Why `decide` is refused.
pub open spec fn ruling_refusal(
    stored: Storage,
    id: Symbol,
    arbitrator: Address,
    outcome: DisputeOutcome,
    split_bps: u32,
) -> Option<DisputeError> {
    if stored.is_paused() {
        Some(DisputeError::Paused)
    } else if !stored.arbitrator_list().contains(arbitrator) {
        Some(DisputeError::NotAnArbitrator)
    } else if split_out_of_range(outcome, split_bps) {
        Some(DisputeError::SplitOutOfRange)
    } else {
        match stored.dispute(id) {
            None => Some(DisputeError::DisputeNotFound),
            Some(dispute) => if !dispute.status.undecided() {
                Some(DisputeError::NotDecidable)
            } else {
                None
            },
        }
    }
}

/// The requests that find out whether a decision can be recorded.
pub open spec fn ruling_checks(
    stored: Storage,
    id: Symbol,
    arbitrator: Address,
    outcome: DisputeOutcome,
    split_bps: u32,
) -> Seq<HostCall> {
    seq![HostCall::RequireAuth(arbitrator), HostCall::Read(DataKey::Paused)] + (
    if stored.is_paused() {
        Seq::empty()
    } else if !stored.arbitrator_list().contains(arbitrator) || split_out_of_range(
        outcome,
        split_bps,
    ) {
        seq![HostCall::Read(DataKey::Arbitrators)]
    } else {
        seq![HostCall::Read(DataKey::Arbitrators), HostCall::Read(DataKey::Dispute(id))]
    })
}

/// The requests that follow the checks when a decision is recorded.
pub open spec fn ruling_calls(
    id: Symbol,
    arbitrator: Address,
    outcome: DisputeOutcome,
    split_bps: u32,
) -> Seq<HostCall> {
    seq![
        HostCall::Write(DataKey::Dispute(id)),
        HostCall::ExtendTtl(DataKey::Dispute(id), TTL_THRESHOLD, TTL_EXTEND_TO),
        HostCall::Publish(
            seq![Topic::Name("DspDcide"@), Topic::Id(id), Topic::Account(arbitrator)],
            Payload::Ruling(outcome.code_of(), split_bps),
        ),
    ]
}

/// Why `settle` is refused by this contract.
pub open spec fn settling_refusal(stored: Storage, id: Symbol) -> Option<DisputeError> {
    if stored.is_paused() {
        Some(DisputeError::Paused)
    } else {
        match stored.dispute(id) {
            None => Some(DisputeError::DisputeNotFound),
            Some(dispute) => if dispute.status != DisputeStatus::Decided {
                Some(DisputeError::NotDecided)
            } else if dispute.settlement() is None {
                Some(DisputeError::SplitOverflow)
            } else {
                None
            },
        }
    }
}

/// The requests that find out whether a dispute can be settled.
pub open spec fn settling_checks(stored: Storage, id: Symbol) -> Seq<HostCall> {
    if stored.is_paused() {
        seq![HostCall::Read(DataKey::Paused)]
    } else {
        seq![HostCall::Read(DataKey::Paused), HostCall::Read(DataKey::Dispute(id))]
    }
}

/// The request that finds the token to be a contract, where there is anything to pay.
pub open spec fn token_check(token: Address, payouts: Seq<Payout>) -> Seq<HostCall> {
    if payouts.len() > 0 {
        seq![HostCall::IsContract(token, true)]
    } else {
        Seq::empty()
    }
}

/// The transfer of a payout out of the contract, and whether the token contract made it.
pub open spec fn paying_transfer(
    contract: Address,
    token: Address,
    payout: Payout,
    done: bool,
) -> HostCall {
    HostCall::Transfer { token, from: contract, to: payout.to, amount: payout.amount, done }
}

/// The transfers of payouts, all of them made.
pub open spec fn paying_calls(contract: Address, token: Address, payouts: Seq<Payout>) -> Seq<
    HostCall,
> {
    payouts.map_values(|payout: Payout| paying_transfer(contract, token, payout, true))
}

/// The requests that follow the payouts when a dispute is settled at the time `now`.
pub open spec fn closing_calls(dispute: Dispute, id: Symbol, now: u64) -> Seq<HostCall> {
    seq![
        HostCall::Clock(now),
        HostCall::Write(DataKey::Dispute(id)),
        HostCall::Publish(
            seq![Topic::Name("DspSettle"@), Topic::Id(id)],
            Payload::Payout(dispute.outcome.code_of(), dispute.amount),
        ),
    ]
}

} // verus!
