//! What holds of the contract over any run of operations.
//!
//! A run is made of the operations that came to an end. A refused operation
//! leaves nothing behind, and neither does one that ends because a token cannot
//! be moved: its invocation is undone.

use soroban_sdk::{Address, BytesN, Env, Symbol};
use vstd::prelude::*;

use crate::dispute::contract::{files, settles};
use crate::dispute::funds::{
    admin_operations_move_nothing, evidence_and_decisions_move_nothing,
    filing_locks_what_is_received, locked, received, received_adds_up,
    settling_pays_out_what_was_locked,
};
use crate::dispute::host::{contract_address, performed, storage};
use crate::dispute::laws::{
    filed_disputes_are_listed_and_read_back, same_claim, written_disputes_are_read_back,
};
use crate::dispute::rules::{
    adding_calls, admin_checks, admin_refusal, arbitrator_added, arbitrator_removed, closing_calls,
    dispute_filed, evidence_calls, evidence_checks, evidence_refusal, filing_calls, filing_checks,
    filing_refusal, initialize_calls, initialize_refusal, initialized, pausing_calls, paying_calls,
    removing_calls, ruling_calls, ruling_checks, ruling_refusal, settling_checks, settling_refusal,
    token_check,
};
use crate::dispute::soundness::{
    adding_keeps_sound, empty_storage_is_sound, evidence_keeps_sound, filing_keeps_sound,
    initialize_keeps_sound, pausing_keeps_sound, removing_keeps_sound, ruling_keeps_sound,
    settling_keeps_sound,
};
use crate::dispute::types::{
    Dispute, DisputeError, DisputeOutcome, DisputeRecord, HostCall, Storage,
};

verus! {

/// An operation of the contract that can change anything, with its arguments
/// and, where it asks for the time, the time it is told.
pub ghost enum Step {
    /// `initialize`.
    Initialize { admin: Address },
    /// `pause`.
    Pause { admin: Address },
    /// `unpause`.
    Unpause { admin: Address },
    /// `add_arbitrator`.
    AddArbitrator { admin: Address, arbitrator: Address },
    /// `remove_arbitrator`.
    RemoveArbitrator { admin: Address, arbitrator: Address },
    /// `file_dispute`.
    File {
        id: Symbol,
        disputer: Address,
        respondent: Address,
        token: Address,
        amount: i128,
        evidence: soroban_sdk::String,
        now: u64,
    },
    /// `submit_evidence`.
    Submit { id: Symbol, caller: Address, evidence: soroban_sdk::String },
    /// `decide`.
    Decide { id: Symbol, arbitrator: Address, outcome: DisputeOutcome, split_bps: u32 },
    /// `settle`.
    Settle { id: Symbol, now: u64 },
    /// `upgrade`.
    Upgrade { admin: Address, hash: BytesN<32> },
}

impl Step {
    /// Why the operation is refused.
    pub open spec fn refusal(self, stored: Storage) -> Option<DisputeError> {
        match self {
            Step::Initialize { .. } => initialize_refusal(stored),
            Step::Pause { admin } => admin_refusal(stored, admin),
            Step::Unpause { admin } => admin_refusal(stored, admin),
            Step::AddArbitrator { admin, .. } => admin_refusal(stored, admin),
            Step::RemoveArbitrator { admin, .. } => admin_refusal(stored, admin),
            Step::File { id, amount, .. } => filing_refusal(stored, id, amount),
            Step::Submit { id, caller, .. } => evidence_refusal(stored, id, caller),
            Step::Decide { id, arbitrator, outcome, split_bps } => ruling_refusal(
                stored,
                id,
                arbitrator,
                outcome,
                split_bps,
            ),
            Step::Settle { id, .. } => settling_refusal(stored, id),
            Step::Upgrade { admin, .. } => admin_refusal(stored, admin),
        }
    }

    /// The storage that the operation leaves when it is not refused.
    pub open spec fn applied(self, stored: Storage) -> Storage {
        match self {
            Step::Initialize { admin } => initialized(stored, admin),
            Step::Pause { .. } => stored.with_paused(true),
            Step::Unpause { .. } => stored.with_paused(false),
            Step::AddArbitrator { arbitrator, .. } => arbitrator_added(stored, arbitrator),
            Step::RemoveArbitrator { arbitrator, .. } => arbitrator_removed(stored, arbitrator),
            Step::File { id, disputer, respondent, token, amount, evidence, now } => dispute_filed(
                stored,
                Dispute::filed(id, disputer, respondent, token, amount, evidence, now),
            ),
            Step::Submit { id, caller, evidence } => stored.with_dispute(
                id,
                (stored.dispute(id)->0).with_evidence(caller, evidence),
            ),
            Step::Decide { id, arbitrator, outcome, split_bps } => stored.with_dispute(
                id,
                (stored.dispute(id)->0).ruled(arbitrator, outcome, split_bps),
            ),
            Step::Settle { id, now } => stored.with_dispute(
                id,
                (stored.dispute(id)->0).closed(now),
            ),
            Step::Upgrade { .. } => stored,
        }
    }

    /// The requests of the operation when it is not refused.
    pub open spec fn calls(self, stored: Storage, contract: Address) -> Seq<HostCall> {
        match self {
            Step::Initialize { admin } => initialize_calls(admin),
            Step::Pause { admin } => pausing_calls(admin, "Paused"@),
            Step::Unpause { admin } => pausing_calls(admin, "Unpaused"@),
            Step::AddArbitrator { admin, arbitrator } => adding_calls(stored, admin, arbitrator),
            Step::RemoveArbitrator { admin, arbitrator } => removing_calls(admin, arbitrator),
            Step::File { id, disputer, respondent, token, amount, evidence, now } => filing_checks(
                stored,
                id,
                disputer,
                amount,
            ) + filing_calls(
                contract,
                Dispute::filed(id, disputer, respondent, token, amount, evidence, now),
            ),
            Step::Submit { id, caller, .. } => evidence_checks(stored, id, caller)
                + evidence_calls(id, caller),
            Step::Decide { id, arbitrator, outcome, split_bps } => ruling_checks(
                stored,
                id,
                arbitrator,
                outcome,
                split_bps,
            ) + ruling_calls(id, arbitrator, outcome, split_bps),
            Step::Settle { id, now } => {
                let dispute = stored.dispute(id)->0;
                let payouts = dispute.settlement()->0;
                settling_checks(stored, id) + token_check(dispute.token, payouts) + paying_calls(
                    contract,
                    dispute.token,
                    payouts,
                ) + closing_calls(dispute, id, now)
            },
            Step::Upgrade { admin, hash } => admin_checks(admin).push(HostCall::UpdateCode(hash)),
        }
    }

    /// Whether the operation files a dispute to which an address is a party.
    pub open spec fn files_with(self, party: Address) -> bool {
        match self {
            Step::File { disputer, respondent, .. } => disputer == party || respondent == party,
            _ => false,
        }
    }
}

/// The storage after a run.
pub open spec fn stored_after(stored: Storage, steps: Seq<Step>) -> Storage
    decreases steps.len(),
{
    if steps.len() == 0 {
        stored
    } else {
        let before = stored_after(stored, steps.drop_last());
        if steps.last().refusal(before) is None {
            steps.last().applied(before)
        } else {
            before
        }
    }
}

/// The requests that a run has made and that count.
pub open spec fn calls_during(stored: Storage, steps: Seq<Step>, contract: Address) -> Seq<
    HostCall,
>
    decreases steps.len(),
{
    if steps.len() == 0 {
        Seq::empty()
    } else {
        let before = stored_after(stored, steps.drop_last());
        let earlier = calls_during(stored, steps.drop_last(), contract);
        if steps.last().refusal(before) is None {
            earlier + steps.last().calls(before, contract)
        } else {
            earlier
        }
    }
}

/// Whether nothing is stored yet.
pub open spec fn is_fresh(stored: Storage) -> bool {
    &&& stored.admin is None
    &&& stored.paused is None
    &&& stored.arbitrators is None
    &&& stored.dispute_ids is None
    &&& stored.disputes == Map::<Symbol, DisputeRecord>::empty()
}

/// Whether an address is a party to none of the stored disputes.
pub open spec fn is_no_party(stored: Storage, who: Address) -> bool {
    forall|id: Symbol| (#[trigger] stored.dispute(id)) is Some ==> !(stored.dispute(
        id,
    )->0).has_party(who)
}

/// A dispute that is filed is a step, with its requests and the storage it leaves.
pub proof fn filings_are_steps(
    pre: Env,
    post: Env,
    id: Symbol,
    disputer: Address,
    respondent: Address,
    token: Address,
    amount: i128,
    evidence: soroban_sdk::String,
    now: u64,
)
    requires
        files(
            pre,
            post,
            Dispute::filed(id, disputer, respondent, token, amount, evidence, now),
        ),
    ensures
        ({
            let step = Step::File { id, disputer, respondent, token, amount, evidence, now };
            performed(
                pre,
                post,
                step.calls(storage(pre), contract_address(pre)),
                step.applied(storage(pre)),
            )
        }),
{
}

/// A dispute that is settled is a step, with its requests and the storage it leaves.
pub proof fn settlements_are_steps(pre: Env, post: Env, id: Symbol, now: u64)
    requires
        settles(pre, post, id, now),
    ensures
        ({
            let step = Step::Settle { id, now };
            performed(
                pre,
                post,
                step.calls(storage(pre), contract_address(pre)),
                step.applied(storage(pre)),
            )
        }),
{
}

proof fn a_step_keeps_sound(stored: Storage, step: Step)
    requires
        stored.sound(),
        step.refusal(stored) is None,
    ensures
        step.applied(stored).sound(),
{
    match step {
        Step::Initialize { admin } => initialize_keeps_sound(stored, admin),
        Step::Pause { .. } => pausing_keeps_sound(stored, true),
        Step::Unpause { .. } => pausing_keeps_sound(stored, false),
        Step::AddArbitrator { arbitrator, .. } => adding_keeps_sound(stored, arbitrator),
        Step::RemoveArbitrator { arbitrator, .. } => removing_keeps_sound(stored, arbitrator),
        Step::File { id, disputer, respondent, token, amount, evidence, now } => {
            filing_keeps_sound(
                stored,
                id,
                disputer,
                respondent,
                token,
                amount,
                evidence,
                now,
            );
        },
        Step::Submit { id, caller, evidence } => {
            evidence_keeps_sound(stored, id, caller, evidence);
        },
        Step::Decide { id, arbitrator, outcome, split_bps } => {
            ruling_keeps_sound(stored, id, arbitrator, outcome, split_bps);
        },
        Step::Settle { id, now } => settling_keeps_sound(stored, id, now),
        Step::Upgrade { .. } => {},
    }
}

/// The invariant holds throughout every run that starts where it holds.
pub proof fn the_invariant_holds_throughout(stored: Storage, steps: Seq<Step>)
    requires
        stored.sound(),
    ensures
        stored_after(stored, steps).sound(),
    decreases steps.len(),
{
    if steps.len() > 0 {
        let before = stored_after(stored, steps.drop_last());
        the_invariant_holds_throughout(stored, steps.drop_last());
        if steps.last().refusal(before) is None {
            a_step_keeps_sound(before, steps.last());
        }
    }
}

/// The invariant holds throughout every run of a fresh contract.
pub proof fn the_invariant_holds_from_the_start(stored: Storage, steps: Seq<Step>)
    requires
        is_fresh(stored),
    ensures
        stored_after(stored, steps).sound(),
{
    empty_storage_is_sound(stored);
    the_invariant_holds_throughout(stored, steps);
}

/// Whether a later state of a dispute can follow an earlier one: its claim is
/// the same, its phase has not gone back, and once it was decided its decision
/// is the same.
pub open spec fn follows(earlier: Dispute, later: Dispute) -> bool {
    &&& same_claim(earlier, later)
    &&& earlier.status.code_of() <= later.status.code_of()
    &&& !earlier.status.undecided() ==> {
        &&& later.outcome == earlier.outcome
        &&& later.split_bps == earlier.split_bps
        &&& later.arbitrator == earlier.arbitrator
    }
}

proof fn a_step_leads_on(stored: Storage, step: Step, id: Symbol)
    requires
        step.refusal(stored) is None,
        stored.dispute(id) is Some,
    ensures
        step.applied(stored).dispute(id) is Some,
        follows(stored.dispute(id)->0, step.applied(stored).dispute(id)->0),
{
    match step {
        Step::Submit { id: at, caller, evidence } => {
            written_disputes_are_read_back(
                stored,
                at,
                (stored.dispute(at)->0).with_evidence(caller, evidence),
                id,
            );
        },
        Step::Decide { id: at, arbitrator, outcome, split_bps } => {
            written_disputes_are_read_back(
                stored,
                at,
                (stored.dispute(at)->0).ruled(arbitrator, outcome, split_bps),
                id,
            );
        },
        Step::Settle { id: at, now } => {
            written_disputes_are_read_back(stored, at, (stored.dispute(at)->0).closed(now), id);
        },
        _ => {},
    }
}

/// Over any run a dispute stays on record, its claim stays the same, its phase
/// never goes back, and a decision on it stays.
pub proof fn disputes_only_move_on(stored: Storage, steps: Seq<Step>, id: Symbol)
    requires
        stored.dispute(id) is Some,
    ensures
        stored_after(stored, steps).dispute(id) is Some,
        follows(stored.dispute(id)->0, stored_after(stored, steps).dispute(id)->0),
    decreases steps.len(),
{
    if steps.len() > 0 {
        let before = stored_after(stored, steps.drop_last());
        disputes_only_move_on(stored, steps.drop_last(), id);
        if steps.last().refusal(before) is None {
            a_step_leads_on(before, steps.last(), id);
        }
    }
}

proof fn a_step_pays_what_it_owes(stored: Storage, step: Step, contract: Address, token: Address)
    requires
        stored.sound(),
        step.refusal(stored) is None,
        is_no_party(stored, contract),
        !step.files_with(contract),
    ensures
        locked(step.applied(stored), token) - locked(stored, token) == received(
            step.calls(stored, contract),
            token,
            contract,
        ),
{
    match step {
        Step::Initialize { admin } => {
            admin_operations_move_nothing(stored, admin, admin, true, ""@, token, contract);
        },
        Step::Pause { admin } => {
            admin_operations_move_nothing(
                stored,
                admin,
                admin,
                true,
                "Paused"@,
                token,
                contract,
            );
        },
        Step::Unpause { admin } => {
            admin_operations_move_nothing(
                stored,
                admin,
                admin,
                false,
                "Unpaused"@,
                token,
                contract,
            );
        },
        Step::AddArbitrator { admin, arbitrator } => {
            admin_operations_move_nothing(stored, admin, arbitrator, true, ""@, token, contract);
        },
        Step::RemoveArbitrator { admin, arbitrator } => {
            admin_operations_move_nothing(stored, admin, arbitrator, true, ""@, token, contract);
        },
        Step::File { id, disputer, respondent, token: paid, amount, evidence, now } => {
            filing_locks_what_is_received(
                stored,
                contract,
                Dispute::filed(id, disputer, respondent, paid, amount, evidence, now),
                token,
            );
        },
        Step::Submit { id, caller, evidence } => {
            evidence_and_decisions_move_nothing(
                stored,
                id,
                caller,
                evidence,
                caller,
                DisputeOutcome::RefundDisputer,
                0,
                token,
                contract,
            );
        },
        Step::Decide { id, arbitrator, outcome, split_bps } => {
            let evidence = (stored.dispute(id)->0).disputer_evidence->0;
            evidence_and_decisions_move_nothing(
                stored,
                id,
                arbitrator,
                evidence,
                arbitrator,
                outcome,
                split_bps,
                token,
                contract,
            );
        },
        Step::Settle { id, now } => {
            settling_pays_out_what_was_locked(stored, contract, id, now, token);
        },
        Step::Upgrade { admin, hash } => {
            reveal_with_fuel(received, 4);
            let calls = admin_checks(admin).push(HostCall::UpdateCode(hash));
            assert(calls.drop_last() =~= admin_checks(admin));
        },
    }
}

proof fn a_step_brings_no_party(stored: Storage, step: Step, contract: Address)
    requires
        step.refusal(stored) is None,
        is_no_party(stored, contract),
        !step.files_with(contract),
    ensures
        is_no_party(step.applied(stored), contract),
{
    let after = step.applied(stored);
    assert forall|id: Symbol| (#[trigger] after.dispute(id)) is Some implies !(after.dispute(
        id,
    )->0).has_party(contract) by {
        if stored.dispute(id) is Some {
            a_step_leads_on(stored, step, id);
        } else {
            match step {
                Step::File { id: at, disputer, respondent, token, amount, evidence, now } => {
                    filed_disputes_are_listed_and_read_back(
                        stored,
                        Dispute::filed(at, disputer, respondent, token, amount, evidence, now),
                    );
                },
                _ => {},
            }
        }
    }
}

/// Over any run, what is locked of a token changes by what the contract receives
/// of it, unless the contract is itself a party to a dispute.
pub proof fn what_is_locked_is_what_is_held(
    stored: Storage,
    steps: Seq<Step>,
    contract: Address,
    token: Address,
)
    requires
        stored.sound(),
        is_no_party(stored, contract),
        forall|i: int| 0 <= i < steps.len() ==> !(#[trigger] steps[i]).files_with(contract),
    ensures
        locked(stored_after(stored, steps), token) - locked(stored, token) == received(
            calls_during(stored, steps, contract),
            token,
            contract,
        ),
        is_no_party(stored_after(stored, steps), contract),
    decreases steps.len(),
{
    if steps.len() > 0 {
        let rest = steps.drop_last();
        let before = stored_after(stored, rest);
        assert forall|i: int| 0 <= i < rest.len() implies !(#[trigger] rest[i]).files_with(
            contract,
        ) by {
            assert(rest[i] == steps[i]);
        }
        assert(!steps[steps.len() - 1].files_with(contract));
        what_is_locked_is_what_is_held(stored, rest, contract, token);
        the_invariant_holds_throughout(stored, rest);
        if steps.last().refusal(before) is None {
            a_step_pays_what_it_owes(before, steps.last(), contract, token);
            a_step_brings_no_party(before, steps.last(), contract);
            received_adds_up(
                calls_during(stored, rest, contract),
                steps.last().calls(before, contract),
                token,
                contract,
            );
        }
    }
}

/// A fresh contract that is not itself a party to a dispute holds at any time
/// exactly what its open disputes have locked.
pub proof fn the_contract_is_solvent(
    stored: Storage,
    steps: Seq<Step>,
    contract: Address,
    token: Address,
)
    requires
        is_fresh(stored),
        forall|i: int| 0 <= i < steps.len() ==> !(#[trigger] steps[i]).files_with(contract),
    ensures
        locked(stored_after(stored, steps), token) == received(
            calls_during(stored, steps, contract),
            token,
            contract,
        ),
{
    empty_storage_is_sound(stored);
    what_is_locked_is_what_is_held(stored, steps, contract, token);
}

} // verus!
