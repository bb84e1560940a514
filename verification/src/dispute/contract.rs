//! The dispute contract: what each invocation checks, stores, pays and announces.
//!
//! A refused invocation returns a `DisputeError`. The entry point that called
//! must then end the invocation, so that the ledger keeps nothing of it.

use soroban_sdk::{Address, BytesN, Env, Symbol};
use vstd::prelude::*;

use crate::dispute::host::{
    contract_address, extend_dispute_ids_ttl, extend_dispute_ttl, has_admin, has_dispute,
    host_calls, is_contract, ledger_time, own_address, performed, publish_account, publish_claim,
    publish_evidence, publish_notice, publish_payout, publish_ruling, read_admin, read_arbitrators,
    read_dispute, read_dispute_ids, read_paused, require_auth, storage, transfer, update_code,
    write_admin, write_arbitrators, write_dispute, write_dispute_ids, write_paused,
};
use crate::dispute::rules::{
    adding_calls, admin_checks, admin_refusal, arbitrator_added, arbitrator_removed, closing_calls,
    dispute_filed, evidence_calls, evidence_checks, evidence_refusal, filing_calls, filing_checks,
    filing_refusal, initialize_calls, initialize_refusal, initialized, list_without, pausing_calls,
    paying_calls, paying_transfer, refused_lock, removing_calls, ruling_calls, ruling_checks,
    ruling_refusal, settling_checks, settling_refusal, token_check,
};
use crate::dispute::soundness::{
    adding_keeps_sound, evidence_keeps_sound, filing_keeps_sound, initialize_keeps_sound,
    pausing_keeps_sound, removing_keeps_sound, ruling_keeps_sound, settling_keeps_sound,
};
use crate::dispute::types::{
    DataKey, Dispute, DisputeError, DisputeOutcome, DisputeStatus, HostCall, TTL_EXTEND_TO,
    TTL_THRESHOLD, VERSION, WHOLE_BPS,
};
use crate::sdk::{
    address_at, address_count, address_items, addresses_of, has_address, no_addresses, no_symbols,
    push_address, push_symbol, same_address, symbol_text, symbols_of,
};

verus! {

/// The names under which the contract publishes events can all be symbols.
proof fn event_names_are_symbols()
    ensures
        symbol_text("Init"@),
        symbol_text("Paused"@),
        symbol_text("Unpaused"@),
        symbol_text("ArbAdd"@),
        symbol_text("ArbRem"@),
        symbol_text("DspOpen"@),
        symbol_text("DspEvid"@),
        symbol_text("DspDcide"@),
        symbol_text("DspSettle"@),
{
    reveal_strlit("Init");
    reveal_strlit("Paused");
    reveal_strlit("Unpaused");
    reveal_strlit("ArbAdd");
    reveal_strlit("ArbRem");
    reveal_strlit("DspOpen");
    reveal_strlit("DspEvid");
    reveal_strlit("DspDcide");
    reveal_strlit("DspSettle");
}

/// Between `pre` and `post` a new dispute is filed: its amount is locked, it is
/// stored and its id is listed.
pub open spec fn files(pre: Env, post: Env, dispute: Dispute) -> bool {
    performed(
        pre,
        post,
        filing_checks(storage(pre), dispute.id, dispute.disputer, dispute.amount) + filing_calls(
            contract_address(pre),
            dispute,
        ),
        dispute_filed(storage(pre), dispute),
    )
}

/// Between `pre` and `post` the amount of a new dispute could not be locked.
/// Nothing is stored.
pub open spec fn fails_to_lock(
    pre: Env,
    post: Env,
    id: Symbol,
    disputer: Address,
    token: Address,
    amount: i128,
    found: bool,
) -> bool {
    performed(
        pre,
        post,
        filing_checks(storage(pre), id, disputer, amount) + refused_lock(
            contract_address(pre),
            disputer,
            token,
            amount,
            found,
        ),
        storage(pre),
    )
}

/// Between `pre` and `post` a decided dispute is settled at the time `now`: its
/// payouts are made, in order, and it is closed.
pub open spec fn settles(pre: Env, post: Env, id: Symbol, now: u64) -> bool {
    let dispute = storage(pre).dispute(id)->0;
    performed(
        pre,
        post,
        settling_checks(storage(pre), id) + token_check(
            dispute.token,
            dispute.settlement()->0,
        ) + paying_calls(contract_address(pre), dispute.token, dispute.settlement()->0)
            + closing_calls(dispute, id, now),
        storage(pre).with_dispute(id, dispute.closed(now)),
    )
}

/// Between `pre` and `post` the first `paid` payouts of a decided dispute are
/// made and the token contract refuses the next one. Nothing is stored.
pub open spec fn stops_paying(pre: Env, post: Env, id: Symbol, paid: int) -> bool {
    let dispute = storage(pre).dispute(id)->0;
    let payouts = dispute.settlement()->0;
    &&& 0 <= paid < payouts.len()
    &&& performed(
        pre,
        post,
        settling_checks(storage(pre), id) + token_check(dispute.token, payouts) + paying_calls(
            contract_address(pre),
            dispute.token,
            payouts.take(paid),
        ) + seq![paying_transfer(contract_address(pre), dispute.token, payouts[paid], false)],
        storage(pre),
    )
}

/// Between `pre` and `post` a decided dispute has something to pay and no
/// contract stands at its token's address. Nothing is stored.
pub open spec fn finds_no_token(pre: Env, post: Env, id: Symbol) -> bool {
    let dispute = storage(pre).dispute(id)->0;
    &&& (dispute.settlement()->0).len() > 0
    &&& performed(
        pre,
        post,
        settling_checks(storage(pre), id) + seq![HostCall::IsContract(dispute.token, false)],
        storage(pre),
    )
}

/// The dispute resolution contract.
pub struct DisputeContract;

impl DisputeContract {
    /// Initialise the contract. May only be called once.
    ///
    /// Publishes `("Init",)` with data `admin`.
    pub fn initialize(env: &mut Env, admin: Address) -> (result: Result<(), DisputeError>)
        ensures
            match initialize_refusal(storage(*old(env))) {
                Some(error) => result == Err::<(), DisputeError>(error) && performed(
                    *old(env),
                    *final(env),
                    seq![HostCall::Has(DataKey::Admin)],
                    storage(*old(env)),
                ),
                None => result == Ok::<(), DisputeError>(()) && performed(
                    *old(env),
                    *final(env),
                    initialize_calls(admin),
                    initialized(storage(*old(env)), admin),
                ),
            },
            storage(*old(env)).sound() ==> storage(*final(env)).sound(),
    {
        let ghost stored = storage(*env);
        let ghost calls = host_calls(*env);
        if has_admin(env) {
            assert(host_calls(*env) =~= calls + seq![HostCall::Has(DataKey::Admin)]);
            return Err(DisputeError::AlreadyInitialized);
        }
        write_admin(env, &admin);
        write_paused(env, false);
        let nobody = no_addresses(env);
        write_arbitrators(env, &nobody);
        proof {
            event_names_are_symbols();
        }
        publish_account(env, "Init", &admin);
        proof {
            assert(host_calls(*env) =~= calls + initialize_calls(admin));
            if stored.sound() {
                initialize_keeps_sound(stored, admin);
            }
        }
        Ok(())
    }

    /// Return the admin address.
    pub fn get_admin(env: &mut Env) -> (result: Result<Address, DisputeError>)
        ensures
            performed(
                *old(env),
                *final(env),
                seq![HostCall::Read(DataKey::Admin)],
                storage(*old(env)),
            ),
            result == (match storage(*old(env)).admin {
                Some(admin) => Ok::<Address, DisputeError>(admin),
                None => Err(DisputeError::NotInitialized),
            }),
    {
        let found = read_admin(env);
        assert(host_calls(*env) =~= host_calls(*old(env)) + seq![HostCall::Read(DataKey::Admin)]);
        match found {
            Some(admin) => Ok(admin),
            None => Err(DisputeError::NotInitialized),
        }
    }

    /// Return the event schema version.
    pub fn version(_env: &Env) -> (version: u32)
        ensures
            version == VERSION,
    {
        VERSION
    }

    /// Find out whether the caller is the admin, who must have authorised the invocation.
    fn require_admin(env: &mut Env, caller: &Address) -> (result: Result<(), DisputeError>)
        ensures
            performed(*old(env), *final(env), admin_checks(*caller), storage(*old(env))),
            result == (match admin_refusal(storage(*old(env)), *caller) {
                Some(error) => Err::<(), DisputeError>(error),
                None => Ok(()),
            }),
    {
        let ghost calls = host_calls(*env);
        require_auth(env, caller);
        let found = read_admin(env);
        assert(host_calls(*env) =~= calls + admin_checks(*caller));
        match found {
            Some(admin) => if same_address(caller, &admin) {
                Ok(())
            } else {
                Err(DisputeError::NotAuthorized)
            },
            None => Err(DisputeError::NotInitialized),
        }
    }

    /// Find out whether the contract is paused.
    fn require_not_paused(env: &mut Env) -> (result: Result<(), DisputeError>)
        ensures
            performed(
                *old(env),
                *final(env),
                seq![HostCall::Read(DataKey::Paused)],
                storage(*old(env)),
            ),
            result == (if storage(*old(env)).is_paused() {
                Err::<(), DisputeError>(DisputeError::Paused)
            } else {
                Ok(())
            }),
    {
        let paused = match read_paused(env) {
            Some(paused) => paused,
            None => false,
        };
        assert(host_calls(*env) =~= host_calls(*old(env)) + seq![HostCall::Read(DataKey::Paused)]);
        if paused {
            Err(DisputeError::Paused)
        } else {
            Ok(())
        }
    }

    /// The approved arbitrators; none unless a list is stored.
    fn get_arbitrators(env: &mut Env) -> (list: soroban_sdk::Vec<Address>)
        ensures
            performed(
                *old(env),
                *final(env),
                seq![HostCall::Read(DataKey::Arbitrators)],
                storage(*old(env)),
            ),
            addresses_of(list) == Some(storage(*old(env)).arbitrator_list()),
    {
        let found = read_arbitrators(env);
        assert(host_calls(*env) =~= host_calls(*old(env)) + seq![
            HostCall::Read(DataKey::Arbitrators),
        ]);
        match found {
            Some(list) => list,
            None => no_addresses(env),
        }
    }

    /// The dispute stored under an id.
    pub(crate) fn find_dispute(env: &mut Env, id: &Symbol) -> (dispute: Option<Dispute>)
        ensures
            performed(
                *old(env),
                *final(env),
                seq![HostCall::Read(DataKey::Dispute(*id))],
                storage(*old(env)),
            ),
            dispute == storage(*old(env)).dispute(*id),
    {
        let found = read_dispute(env, id);
        assert(host_calls(*env) =~= host_calls(*old(env)) + seq![
            HostCall::Read(DataKey::Dispute(*id)),
        ]);
        match found {
            Some(record) => record.decode(),
            None => None,
        }
    }

    /// The ids of all disputes; none unless a list is stored.
    fn find_dispute_ids(env: &mut Env) -> (ids: soroban_sdk::Vec<Symbol>)
        ensures
            performed(
                *old(env),
                *final(env),
                seq![HostCall::Read(DataKey::DisputeList)],
                storage(*old(env)),
            ),
            symbols_of(ids) == Some(storage(*old(env)).id_list()),
    {
        let found = read_dispute_ids(env);
        assert(host_calls(*env) =~= host_calls(*old(env)) + seq![
            HostCall::Read(DataKey::DisputeList),
        ]);
        match found {
            Some(ids) => ids,
            None => no_symbols(env),
        }
    }

    /// Pause the contract (admin only).
    ///
    /// Publishes `("Paused", admin)`.
    pub fn pause(env: &mut Env, admin: Address) -> (result: Result<(), DisputeError>)
        ensures
            match admin_refusal(storage(*old(env)), admin) {
                Some(error) => result == Err::<(), DisputeError>(error) && performed(
                    *old(env),
                    *final(env),
                    admin_checks(admin),
                    storage(*old(env)),
                ),
                None => result == Ok::<(), DisputeError>(()) && performed(
                    *old(env),
                    *final(env),
                    pausing_calls(admin, "Paused"@),
                    storage(*old(env)).with_paused(true),
                ),
            },
            storage(*old(env)).sound() ==> storage(*final(env)).sound(),
    {
        let ghost stored = storage(*env);
        let ghost calls = host_calls(*env);
        if let Err(error) = Self::require_admin(env, &admin) {
            return Err(error);
        }
        write_paused(env, true);
        proof {
            event_names_are_symbols();
        }
        publish_notice(env, "Paused", &admin);
        proof {
            assert(host_calls(*env) =~= calls + pausing_calls(admin, "Paused"@));
            if stored.sound() {
                pausing_keeps_sound(stored, true);
            }
        }
        Ok(())
    }

    /// Unpause the contract (admin only).
    ///
    /// Publishes `("Unpaused", admin)`.
    pub fn unpause(env: &mut Env, admin: Address) -> (result: Result<(), DisputeError>)
        ensures
            match admin_refusal(storage(*old(env)), admin) {
                Some(error) => result == Err::<(), DisputeError>(error) && performed(
                    *old(env),
                    *final(env),
                    admin_checks(admin),
                    storage(*old(env)),
                ),
                None => result == Ok::<(), DisputeError>(()) && performed(
                    *old(env),
                    *final(env),
                    pausing_calls(admin, "Unpaused"@),
                    storage(*old(env)).with_paused(false),
                ),
            },
            storage(*old(env)).sound() ==> storage(*final(env)).sound(),
    {
        let ghost stored = storage(*env);
        let ghost calls = host_calls(*env);
        if let Err(error) = Self::require_admin(env, &admin) {
            return Err(error);
        }
        write_paused(env, false);
        proof {
            event_names_are_symbols();
        }
        publish_notice(env, "Unpaused", &admin);
        proof {
            assert(host_calls(*env) =~= calls + pausing_calls(admin, "Unpaused"@));
            if stored.sound() {
                pausing_keeps_sound(stored, false);
            }
        }
        Ok(())
    }

    /// Add an arbitrator (admin only). Idempotent.
    ///
    /// Publishes `("ArbAdd",)` with data `arbitrator`.
    pub fn add_arbitrator(env: &mut Env, admin: Address, arbitrator: Address) -> (result: Result<
        (),
        DisputeError,
    >)
        ensures
            match admin_refusal(storage(*old(env)), admin) {
                Some(error) => result == Err::<(), DisputeError>(error) && performed(
                    *old(env),
                    *final(env),
                    admin_checks(admin),
                    storage(*old(env)),
                ),
                None => result == Ok::<(), DisputeError>(()) && performed(
                    *old(env),
                    *final(env),
                    adding_calls(storage(*old(env)), admin, arbitrator),
                    arbitrator_added(storage(*old(env)), arbitrator),
                ),
            },
            storage(*old(env)).sound() ==> storage(*final(env)).sound(),
    {
        let ghost stored = storage(*env);
        let ghost calls = host_calls(*env);
        if let Err(error) = Self::require_admin(env, &admin) {
            return Err(error);
        }
        let mut list = Self::get_arbitrators(env);
        if !has_address(&list, &arbitrator) {
            push_address(&mut list, arbitrator.clone());
            write_arbitrators(env, &list);
        }
        proof {
            event_names_are_symbols();
        }
        publish_account(env, "ArbAdd", &arbitrator);
        proof {
            assert(host_calls(*env) =~= calls + adding_calls(stored, admin, arbitrator));
            if stored.sound() {
                adding_keeps_sound(stored, arbitrator);
            }
        }
        Ok(())
    }

    /// Remove an arbitrator (admin only).
    ///
    /// Publishes `("ArbRem",)` with data `arbitrator`.
    pub fn remove_arbitrator(env: &mut Env, admin: Address, arbitrator: Address) -> (result: Result<
        (),
        DisputeError,
    >)
        ensures
            match admin_refusal(storage(*old(env)), admin) {
                Some(error) => result == Err::<(), DisputeError>(error) && performed(
                    *old(env),
                    *final(env),
                    admin_checks(admin),
                    storage(*old(env)),
                ),
                None => result == Ok::<(), DisputeError>(()) && performed(
                    *old(env),
                    *final(env),
                    removing_calls(admin, arbitrator),
                    arbitrator_removed(storage(*old(env)), arbitrator),
                ),
            },
            storage(*old(env)).sound() ==> storage(*final(env)).sound(),
    {
        let ghost stored = storage(*env);
        let ghost calls = host_calls(*env);
        if let Err(error) = Self::require_admin(env, &admin) {
            return Err(error);
        }
        let list = Self::get_arbitrators(env);
        let mut updated = no_addresses(env);
        let count: u32 = address_count(&list);
        let mut index: u32 = 0;
        let ghost items = addresses_of(list)->0;
        proof {
            reveal(Seq::filter);
            assert(items.take(0) =~= Seq::<Address>::empty());
        }
        while index < count
            invariant
                index <= count,
                count == items.len(),
                count == address_items(list).len(),
                addresses_of(list) == Some(items),
                addresses_of(updated) == Some(
                    list_without(items.take(index as int), arbitrator),
                ),
            decreases count - index,
        {
            let listed = address_at(&list, index);
            proof {
                reveal(Seq::filter);
                assert(items.take(index + 1).drop_last() =~= items.take(index as int));
            }
            if !same_address(&listed, &arbitrator) {
                push_address(&mut updated, listed);
            }
            index = index + 1;
        }
        assert(items.take(index as int) =~= items);
        write_arbitrators(env, &updated);
        proof {
            event_names_are_symbols();
        }
        publish_account(env, "ArbRem", &arbitrator);
        proof {
            assert(host_calls(*env) =~= calls + removing_calls(admin, arbitrator));
            if stored.sound() {
                removing_keeps_sound(stored, arbitrator);
            }
        }
        Ok(())
    }

    /// Return all approved arbitrators.
    pub fn list_arbitrators(env: &mut Env) -> (list: soroban_sdk::Vec<Address>)
        ensures
            performed(
                *old(env),
                *final(env),
                seq![HostCall::Read(DataKey::Arbitrators)],
                storage(*old(env)),
            ),
            addresses_of(list) == Some(storage(*old(env)).arbitrator_list()),
    {
        Self::get_arbitrators(env)
    }

    /// File a dispute and lock `amount` tokens in this contract.
    ///
    /// Tokens are transferred from `disputer` to the contract immediately. The
    /// disputer must have authorised the invocation. The amount must be
    /// positive, the id must be new, and a contract must stand at the token's
    /// address.
    ///
    /// Publishes `("DspOpen", id, disputer)` with data `(respondent, amount)`.
    pub fn file_dispute(
        env: &mut Env,
        id: Symbol,
        disputer: Address,
        respondent: Address,
        token: Address,
        amount: i128,
        evidence_hash: soroban_sdk::String,
    ) -> (result: Result<(), DisputeError>)
        ensures
            match filing_refusal(storage(*old(env)), id, amount) {
                Some(error) => result == Err::<(), DisputeError>(error) && performed(
                    *old(env),
                    *final(env),
                    filing_checks(storage(*old(env)), id, disputer, amount),
                    storage(*old(env)),
                ),
                None => match result {
                    Ok(()) => exists|now: u64|
                        files(
                            *old(env),
                            *final(env),
                            #[trigger] Dispute::filed(
                                id,
                                disputer,
                                respondent,
                                token,
                                amount,
                                evidence_hash,
                                now,
                            ),
                        ),
                    Err(error) => error == DisputeError::TransferFailed && exists|found: bool|
                        fails_to_lock(
                            *old(env),
                            *final(env),
                            id,
                            disputer,
                            token,
                            amount,
                            found,
                        ),
                },
            },
            storage(*old(env)).sound() ==> storage(*final(env)).sound(),
    {
        let ghost stored = storage(*env);
        let ghost calls = host_calls(*env);
        let ghost contract = contract_address(*env);
        let ghost checks = filing_checks(stored, id, disputer, amount);
        require_auth(env, &disputer);
        if let Err(error) = Self::require_not_paused(env) {
            assert(host_calls(*env) =~= calls + checks);
            return Err(error);
        }
        if amount <= 0 {
            assert(host_calls(*env) =~= calls + checks);
            return Err(DisputeError::AmountNotPositive);
        }
        let taken = has_dispute(env, &id);
        assert(host_calls(*env) =~= calls + checks);
        if taken {
            return Err(DisputeError::DuplicateDispute);
        }
        if !is_contract(env, &token) {
            proof {
                assert(host_calls(*env) =~= calls + (checks + refused_lock(
                    contract,
                    disputer,
                    token,
                    amount,
                    false,
                )));
                assert(fails_to_lock(*old(env), *env, id, disputer, token, amount, false));
            }
            return Err(DisputeError::TransferFailed);
        }
        let custody = own_address(env);
        assert(host_calls(*env).last() == HostCall::IsContract(token, true));
        if !transfer(env, &token, &disputer, &custody, amount) {
            proof {
                assert(host_calls(*env) =~= calls + (checks + refused_lock(
                    contract,
                    disputer,
                    token,
                    amount,
                    true,
                )));
                assert(fails_to_lock(*old(env), *env, id, disputer, token, amount, true));
            }
            return Err(DisputeError::TransferFailed);
        }
        let now: u64 = ledger_time(env);
        let dispute = Dispute::file(
            id.clone(),
            disputer.clone(),
            respondent.clone(),
            token,
            amount,
            evidence_hash,
            now,
        );
        let ghost filed = dispute;
        write_dispute(env, &id, dispute.encode());
        extend_dispute_ttl(env, &id, TTL_THRESHOLD, TTL_EXTEND_TO);
        let mut ids = Self::find_dispute_ids(env);
        push_symbol(&mut ids, id.clone());
        write_dispute_ids(env, &ids);
        extend_dispute_ids_ttl(env, TTL_THRESHOLD, TTL_EXTEND_TO);
        proof {
            event_names_are_symbols();
        }
        publish_claim(env, "DspOpen", &id, &disputer, &respondent, amount);
        proof {
            assert(host_calls(*env) =~= calls + (checks + filing_calls(contract, filed)));
            assert(files(*old(env), *env, filed));
            if stored.sound() {
                filing_keeps_sound(
                    stored,
                    id,
                    disputer,
                    respondent,
                    token,
                    amount,
                    evidence_hash,
                    now,
                );
            }
        }
        Ok(())
    }

    /// Submit evidence for an open dispute.
    ///
    /// Either the disputer or the respondent may attach or update their
    /// evidence hash. Advances the status to `Evidence` on first submission.
    /// The caller must have authorised the invocation.
    ///
    /// Publishes `("DspEvid", dispute_id, caller)`.
    pub fn submit_evidence(
        env: &mut Env,
        dispute_id: Symbol,
        caller: Address,
        evidence_hash: soroban_sdk::String,
    ) -> (result: Result<(), DisputeError>)
        ensures
            match evidence_refusal(storage(*old(env)), dispute_id, caller) {
                Some(error) => result == Err::<(), DisputeError>(error) && performed(
                    *old(env),
                    *final(env),
                    evidence_checks(storage(*old(env)), dispute_id, caller),
                    storage(*old(env)),
                ),
                None => result == Ok::<(), DisputeError>(()) && performed(
                    *old(env),
                    *final(env),
                    evidence_checks(storage(*old(env)), dispute_id, caller) + evidence_calls(
                        dispute_id,
                        caller,
                    ),
                    storage(*old(env)).with_dispute(
                        dispute_id,
                        (storage(*old(env)).dispute(dispute_id)->0).with_evidence(
                            caller,
                            evidence_hash,
                        ),
                    ),
                ),
            },
            storage(*old(env)).sound() ==> storage(*final(env)).sound(),
    {
        let ghost stored = storage(*env);
        let ghost calls = host_calls(*env);
        let ghost checks = evidence_checks(stored, dispute_id, caller);
        require_auth(env, &caller);
        if let Err(error) = Self::require_not_paused(env) {
            assert(host_calls(*env) =~= calls + checks);
            return Err(error);
        }
        let found = Self::find_dispute(env, &dispute_id);
        assert(host_calls(*env) =~= calls + checks);
        let dispute = match found {
            Some(dispute) => dispute,
            None => return Err(DisputeError::DisputeNotFound),
        };
        let after = match dispute.submit(&caller, evidence_hash) {
            Ok(after) => after,
            Err(error) => return Err(error),
        };
        write_dispute(env, &dispute_id, after.encode());
        extend_dispute_ttl(env, &dispute_id, TTL_THRESHOLD, TTL_EXTEND_TO);
        proof {
            event_names_are_symbols();
        }
        publish_evidence(env, "DspEvid", &dispute_id, &caller);
        proof {
            assert(host_calls(*env) =~= calls + (checks + evidence_calls(dispute_id, caller)));
            if stored.sound() {
                evidence_keeps_sound(stored, dispute_id, caller, evidence_hash);
            }
        }
        Ok(())
    }

    /// Record an arbitrator's decision. Does not transfer tokens yet.
    ///
    /// The dispute must be in the `Open` or the `Evidence` phase. Call `settle`
    /// afterwards to execute the transfer. The arbitrator must be an approved
    /// one and must have authorised the invocation. `split_bps` is the
    /// respondent's share; it counts only when the outcome is `Split`.
    ///
    /// Publishes `("DspDcide", dispute_id, arbitrator)` with the number of the
    /// outcome and `split_bps` for data.
    pub fn decide(
        env: &mut Env,
        dispute_id: Symbol,
        arbitrator: Address,
        outcome: DisputeOutcome,
        split_bps: u32,
    ) -> (result: Result<(), DisputeError>)
        ensures
            match ruling_refusal(storage(*old(env)), dispute_id, arbitrator, outcome, split_bps) {
                Some(error) => result == Err::<(), DisputeError>(error) && performed(
                    *old(env),
                    *final(env),
                    ruling_checks(
                        storage(*old(env)),
                        dispute_id,
                        arbitrator,
                        outcome,
                        split_bps,
                    ),
                    storage(*old(env)),
                ),
                None => result == Ok::<(), DisputeError>(()) && performed(
                    *old(env),
                    *final(env),
                    ruling_checks(
                        storage(*old(env)),
                        dispute_id,
                        arbitrator,
                        outcome,
                        split_bps,
                    ) + ruling_calls(dispute_id, arbitrator, outcome, split_bps),
                    storage(*old(env)).with_dispute(
                        dispute_id,
                        (storage(*old(env)).dispute(dispute_id)->0).ruled(
                            arbitrator,
                            outcome,
                            split_bps,
                        ),
                    ),
                ),
            },
            storage(*old(env)).sound() ==> storage(*final(env)).sound(),
    {
        let ghost stored = storage(*env);
        let ghost calls = host_calls(*env);
        let ghost checks = ruling_checks(stored, dispute_id, arbitrator, outcome, split_bps);
        require_auth(env, &arbitrator);
        if let Err(error) = Self::require_not_paused(env) {
            assert(host_calls(*env) =~= calls + checks);
            return Err(error);
        }
        let approved = has_address(&Self::get_arbitrators(env), &arbitrator);
        if !approved {
            assert(host_calls(*env) =~= calls + checks);
            return Err(DisputeError::NotAnArbitrator);
        }
        if outcome == DisputeOutcome::Split && split_bps > WHOLE_BPS {
            assert(host_calls(*env) =~= calls + checks);
            return Err(DisputeError::SplitOutOfRange);
        }
        let found = Self::find_dispute(env, &dispute_id);
        assert(host_calls(*env) =~= calls + checks);
        let dispute = match found {
            Some(dispute) => dispute,
            None => return Err(DisputeError::DisputeNotFound),
        };
        let after = match dispute.rule(arbitrator.clone(), outcome, split_bps) {
            Ok(after) => after,
            Err(error) => return Err(error),
        };
        write_dispute(env, &dispute_id, after.encode());
        extend_dispute_ttl(env, &dispute_id, TTL_THRESHOLD, TTL_EXTEND_TO);
        proof {
            event_names_are_symbols();
        }
        publish_ruling(env, "DspDcide", &dispute_id, &arbitrator, outcome.code(), split_bps);
        proof {
            assert(host_calls(*env) =~= calls + (checks + ruling_calls(
                dispute_id,
                arbitrator,
                outcome,
                split_bps,
            )));
            if stored.sound() {
                ruling_keeps_sound(stored, dispute_id, arbitrator, outcome, split_bps);
            }
        }
        Ok(())
    }

    /// Execute token settlement according to the arbitrator's decision.
    ///
    /// Callable by anyone once the dispute is in the `Decided` phase. Where there
    /// is anything to pay, the token is first found to be a contract. When the
    /// token contract refuses a transfer, the transfers before it have been
    /// made and the dispute is still `Decided`.
    ///
    /// Publishes `("DspSettle", dispute_id)` with the number of the outcome and
    /// the amount for data.
    pub fn settle(env: &mut Env, dispute_id: Symbol) -> (result: Result<(), DisputeError>)
        ensures
            match settling_refusal(storage(*old(env)), dispute_id) {
                Some(error) => result == Err::<(), DisputeError>(error) && performed(
                    *old(env),
                    *final(env),
                    settling_checks(storage(*old(env)), dispute_id),
                    storage(*old(env)),
                ),
                None => match result {
                    Ok(()) => exists|now: u64| settles(*old(env), *final(env), dispute_id, now),
                    Err(error) => error == DisputeError::TransferFailed && (finds_no_token(
                        *old(env),
                        *final(env),
                        dispute_id,
                    ) || exists|paid: int|
                        stops_paying(*old(env), *final(env), dispute_id, paid)),
                },
            },
            storage(*old(env)).sound() ==> storage(*final(env)).sound(),
    {
        let ghost stored = storage(*env);
        let ghost calls = host_calls(*env);
        let ghost checks = settling_checks(stored, dispute_id);
        if let Err(error) = Self::require_not_paused(env) {
            assert(host_calls(*env) =~= calls + checks);
            return Err(error);
        }
        let found = Self::find_dispute(env, &dispute_id);
        assert(host_calls(*env) =~= calls + checks);
        let dispute = match found {
            Some(dispute) => dispute,
            None => return Err(DisputeError::DisputeNotFound),
        };
        if dispute.status != DisputeStatus::Decided {
            return Err(DisputeError::NotDecided);
        }
        let payouts = match dispute.payouts() {
            Ok(payouts) => payouts,
            Err(error) => return Err(error),
        };
        let custody = own_address(env);
        let ghost contract = contract_address(*env);
        let ghost token = dispute.token;
        if payouts.len() > 0 {
            if !is_contract(env, &dispute.token) {
                proof {
                    assert(host_calls(*env) =~= calls + (checks + seq![
                        HostCall::IsContract(token, false),
                    ]));
                    assert(finds_no_token(*old(env), *env, dispute_id));
                }
                return Err(DisputeError::TransferFailed);
            }
            assert(host_calls(*env).last() == HostCall::IsContract(token, true));
        }
        let ghost ready = checks + token_check(token, payouts@);
        proof {
            assert(host_calls(*env) =~= calls + ready);
            assert(paying_calls(contract, token, payouts@.take(0)) =~= Seq::<HostCall>::empty());
            assert(host_calls(*env) =~= calls + (ready + paying_calls(
                contract,
                token,
                payouts@.take(0),
            )));
        }
        let mut paid: usize = 0;
        while paid < payouts.len()
            invariant
                paid <= payouts.len(),
                storage(*env) == stored,
                stored == storage(*old(env)),
                calls == host_calls(*old(env)),
                contract == contract_address(*old(env)),
                contract == custody,
                contract_address(*env) == contract,
                settling_refusal(stored, dispute_id) is None,
                stored.dispute(dispute_id) == Some(dispute),
                dispute.settlement() == Some(payouts@),
                checks == settling_checks(stored, dispute_id),
                ready == checks + token_check(dispute.token, payouts@),
                payouts.len() > 0 ==> host_calls(*env).contains(
                    HostCall::IsContract(dispute.token, true),
                ),
                host_calls(*env) == calls + (ready + paying_calls(
                    contract,
                    dispute.token,
                    payouts@.take(paid as int),
                )),
            decreases payouts.len() - paid,
        {
            let payout = &payouts[paid];
            let ghost before_transfer = host_calls(*env);
            let done = transfer(env, &dispute.token, &custody, &payout.to, payout.amount);
            if !done {
                proof {
                    assert(host_calls(*env) =~= calls + (ready + paying_calls(
                        contract,
                        dispute.token,
                        payouts@.take(paid as int),
                    ) + seq![paying_transfer(contract, dispute.token, payouts@[paid as int], false)]));
                    assert(stops_paying(*old(env), *env, dispute_id, paid as int));
                }
                return Err(DisputeError::TransferFailed);
            }
            proof {
                let at = choose|i: int|
                    0 <= i < before_transfer.len() && before_transfer[i] == HostCall::IsContract(
                        dispute.token,
                        true,
                    );
                assert(host_calls(*env)[at] == HostCall::IsContract(dispute.token, true));
                let before = payouts@.take(paid as int);
                assert(payouts@.take(paid + 1) =~= before.push(payouts@[paid as int]));
                assert(paying_calls(contract, dispute.token, payouts@.take(paid + 1))
                    =~= paying_calls(contract, dispute.token, before).push(
                    paying_transfer(contract, dispute.token, payouts@[paid as int], true),
                ));
                assert(host_calls(*env) =~= calls + (ready + paying_calls(
                    contract,
                    dispute.token,
                    payouts@.take(paid + 1),
                )));
            }
            paid = paid + 1;
        }
        assert(payouts@.take(paid as int) =~= payouts@);
        let now: u64 = ledger_time(env);
        let outcome = dispute.outcome;
        let amount: i128 = dispute.amount;
        let ghost settled = dispute;
        write_dispute(env, &dispute_id, dispute.close(now).encode());
        proof {
            event_names_are_symbols();
        }
        publish_payout(env, "DspSettle", &dispute_id, outcome.code(), amount);
        proof {
            assert(host_calls(*env) =~= calls + (ready + paying_calls(
                contract,
                settled.token,
                payouts@,
            ) + closing_calls(settled, dispute_id, now)));
            assert(settles(*old(env), *env, dispute_id, now));
            if stored.sound() {
                settling_keeps_sound(stored, dispute_id, now);
            }
        }
        Ok(())
    }

    /// Get a dispute by id.
    pub fn get_dispute(env: &mut Env, dispute_id: Symbol) -> (dispute: Option<Dispute>)
        ensures
            performed(
                *old(env),
                *final(env),
                seq![HostCall::Read(DataKey::Dispute(dispute_id))],
                storage(*old(env)),
            ),
            dispute == storage(*old(env)).dispute(dispute_id),
    {
        Self::find_dispute(env, &dispute_id)
    }

    /// List all dispute ids.
    pub fn list_disputes(env: &mut Env) -> (ids: soroban_sdk::Vec<Symbol>)
        ensures
            performed(
                *old(env),
                *final(env),
                seq![HostCall::Read(DataKey::DisputeList)],
                storage(*old(env)),
            ),
            symbols_of(ids) == Some(storage(*old(env)).id_list()),
    {
        Self::find_dispute_ids(env)
    }

    /// Upgrade the contract code (admin only).
    pub fn upgrade(env: &mut Env, admin: Address, new_wasm_hash: BytesN<32>) -> (result: Result<
        (),
        DisputeError,
    >)
        ensures
            match admin_refusal(storage(*old(env)), admin) {
                Some(error) => result == Err::<(), DisputeError>(error) && performed(
                    *old(env),
                    *final(env),
                    admin_checks(admin),
                    storage(*old(env)),
                ),
                None => result == Ok::<(), DisputeError>(()) && performed(
                    *old(env),
                    *final(env),
                    admin_checks(admin).push(HostCall::UpdateCode(new_wasm_hash)),
                    storage(*old(env)),
                ),
            },
    {
        let ghost calls = host_calls(*env);
        if let Err(error) = Self::require_admin(env, &admin) {
            return Err(error);
        }
        update_code(env, new_wasm_hash);
        assert(host_calls(*env) =~= calls + admin_checks(admin).push(
            HostCall::UpdateCode(new_wasm_hash),
        ));
        Ok(())
    }
}

} // verus!
