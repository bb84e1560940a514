//! The dispute contract's side of the Soroban host: its storage, its clock, its
//! events, the tokens it moves.
//!
//! Every request goes through one of the functions below, and each of them
//! rests on the SDK. They take the `Env` by `&mut`: though the SDK changes the
//! host through a shared handle, an invocation is alone with its contract's
//! storage (the SDK documents that data "can only be queried and modified by
//! the contract that stores it", and the host refuses to enter a contract that
//! is on the call stack already). For the same reason each key holds the kind
//! of value that this contract writes under it. Any request may end the
//! invocation instead of returning, and with it undo all it did: when the
//! invocation's budget is used up, when a ledger entry is not at hand, or where
//! a function says so.

use soroban_sdk::token::TokenClient;
use soroban_sdk::{Address, BytesN, Env, EnvBase, Executable, IntoVal, MapObject, Symbol, Val};
use vstd::prelude::*;

use crate::dispute::types::{
    DataKey, DisputeRecord, HostCall, Payload, Storage, Topic, TTL_EXTEND_TO,
};
use crate::sdk::{addresses_of, symbol_text, symbols_of};

verus! {

/// What the contract's storage holds.
pub uninterp spec fn storage(env: Env) -> Storage;

/// The requests that the invocation has made of the host, in order.
pub uninterp spec fn host_calls(env: Env) -> Seq<HostCall>;

/// The address of the contract that the invocation runs.
pub uninterp spec fn contract_address(env: Env) -> Address;

/// Between `pre` and `post` the invocation made the request `call`, and the
/// storage came to hold `stored`.
pub open spec fn requested(pre: Env, post: Env, call: HostCall, stored: Storage) -> bool {
    &&& storage(post) == stored
    &&& host_calls(post) == host_calls(pre).push(call)
    &&& contract_address(post) == contract_address(pre)
}

/// The same for a request that changes nothing in the storage.
pub open spec fn asked(pre: Env, post: Env, call: HostCall) -> bool {
    requested(pre, post, call, storage(pre))
}

/// Between `pre` and `post` the invocation made the requests `calls`, in order,
/// and the storage came to hold `stored`.
pub open spec fn performed(pre: Env, post: Env, calls: Seq<HostCall>, stored: Storage) -> bool {
    &&& storage(post) == stored
    &&& host_calls(post) == host_calls(pre) + calls
    &&& contract_address(post) == contract_address(pre)
}

/// `Address::require_auth`. The invocation ends here unless the address has
/// authorised it; whether it has is for the host to say.
#[verifier::external_body]
pub(crate) fn require_auth(env: &mut Env, who: &Address)
    ensures
        storage(*final(env)) == storage(*old(env)),
        host_calls(*final(env)) == host_calls(*old(env)).push(HostCall::RequireAuth(*who)),
        contract_address(*final(env)) == contract_address(*old(env)),
{
    who.require_auth()
}

/// `Env::current_contract_address`.
#[verifier::external_body]
pub(crate) fn own_address(env: &Env) -> (address: Address)
    ensures
        address == contract_address(*env),
{
    env.current_contract_address()
}

/// `Ledger::timestamp`. Which time it is, is for the host to say.
#[verifier::external_body]
pub(crate) fn ledger_time(env: &mut Env) -> (now: u64)
    ensures
        asked(*old(env), *final(env), HostCall::Clock(now)),
{
    env.ledger().timestamp()
}

/// `Instance::has` for the admin.
#[verifier::external_body]
pub(crate) fn has_admin(env: &mut Env) -> (found: bool)
    ensures
        asked(*old(env), *final(env), HostCall::Has(DataKey::Admin)),
        found == (storage(*old(env)).admin is Some),
{
    env.storage().instance().has(&(Symbol::new(env, "Admin"),))
}

/// `Instance::get` for the admin.
#[verifier::external_body]
pub(crate) fn read_admin(env: &mut Env) -> (admin: Option<Address>)
    ensures
        asked(*old(env), *final(env), HostCall::Read(DataKey::Admin)),
        admin == storage(*old(env)).admin,
{
    env.storage().instance().get(&(Symbol::new(env, "Admin"),))
}

/// `Instance::set` for the admin.
#[verifier::external_body]
pub(crate) fn write_admin(env: &mut Env, admin: &Address)
    ensures
        requested(
            *old(env),
            *final(env),
            HostCall::Write(DataKey::Admin),
            Storage { admin: Some(*admin), ..storage(*old(env)) },
        ),
{
    env.storage().instance().set(&(Symbol::new(env, "Admin"),), admin)
}

/// `Instance::get` for the paused flag.
#[verifier::external_body]
pub(crate) fn read_paused(env: &mut Env) -> (paused: Option<bool>)
    ensures
        asked(*old(env), *final(env), HostCall::Read(DataKey::Paused)),
        paused == storage(*old(env)).paused,
{
    env.storage().instance().get(&(Symbol::new(env, "Paused"),))
}

/// `Instance::set` for the paused flag.
#[verifier::external_body]
pub(crate) fn write_paused(env: &mut Env, paused: bool)
    ensures
        requested(
            *old(env),
            *final(env),
            HostCall::Write(DataKey::Paused),
            storage(*old(env)).with_paused(paused),
        ),
{
    env.storage().instance().set(&(Symbol::new(env, "Paused"),), &paused)
}

/// `Persistent::get` for the list of arbitrators, which only this contract has
/// written, with addresses only.
#[verifier::external_body]
pub(crate) fn read_arbitrators(env: &mut Env) -> (list: Option<soroban_sdk::Vec<Address>>)
    ensures
        asked(*old(env), *final(env), HostCall::Read(DataKey::Arbitrators)),
        match list {
            Some(list) => {
                &&& addresses_of(list) is Some
                &&& storage(*old(env)).arbitrators == addresses_of(list)
            },
            None => storage(*old(env)).arbitrators is None,
        },
{
    env.storage().persistent().get(&(Symbol::new(env, "Arbitrators"),))
}

/// `Persistent::set` for the list of arbitrators.
#[verifier::external_body]
pub(crate) fn write_arbitrators(env: &mut Env, list: &soroban_sdk::Vec<Address>)
    requires
        addresses_of(*list) is Some,
    ensures
        requested(
            *old(env),
            *final(env),
            HostCall::Write(DataKey::Arbitrators),
            storage(*old(env)).with_arbitrators(addresses_of(*list)->0),
        ),
{
    env.storage().persistent().set(&(Symbol::new(env, "Arbitrators"),), list)
}

/// `Persistent::has` for a dispute.
#[verifier::external_body]
pub(crate) fn has_dispute(env: &mut Env, id: &Symbol) -> (found: bool)
    ensures
        asked(*old(env), *final(env), HostCall::Has(DataKey::Dispute(*id))),
        found == storage(*old(env)).disputes.contains_key(*id),
{
    env.storage().persistent().has(&(Symbol::new(env, "Dispute"), id))
}

/// `Persistent::get` for a dispute. The host holds the record as a map from
/// the names of its fields to their values.
#[verifier::external_body]
pub(crate) fn read_dispute(env: &mut Env, id: &Symbol) -> (record: Option<DisputeRecord>)
    ensures
        asked(*old(env), *final(env), HostCall::Read(DataKey::Dispute(*id))),
        match record {
            Some(record) => {
                &&& storage(*old(env)).disputes.contains_key(*id)
                &&& storage(*old(env)).disputes[*id] == record
            },
            None => !storage(*old(env)).disputes.contains_key(*id),
        },
{
    let map: MapObject = env.storage().persistent().get(&(Symbol::new(env, "Dispute"), id))?;
    let mut vals: [Val; 13] = [Val::VOID.to_val(); 13];
    let keys = ["amount", "arbitrator", "disputer", "disputer_evidence", "filed_at", "id", "outcome",
        "respondent", "respondent_evidence", "settled_at", "split_bps", "status", "token"];
    let Ok(_) = env.map_unpack_to_slice(map, &keys, &mut vals);
    let (amount, arbitrator, disputer, disputer_evidence, filed_at, id, outcome, respondent,
        respondent_evidence, settled_at, split_bps, status, token) = vals.into_val(env);
    Some(DisputeRecord { id, disputer, respondent, token, amount, status, outcome, split_bps,
        arbitrator, filed_at, settled_at, disputer_evidence, respondent_evidence })
}

/// `Persistent::set` for a dispute, held as `read_dispute` says.
#[verifier::external_body]
pub(crate) fn write_dispute(env: &mut Env, id: &Symbol, record: DisputeRecord)
    ensures
        requested(
            *old(env),
            *final(env),
            HostCall::Write(DataKey::Dispute(*id)),
            Storage {
                disputes: storage(*old(env)).disputes.insert(*id, record),
                ..storage(*old(env))
            },
        ),
{
    let r = record;
    let keys = ["amount", "arbitrator", "disputer", "disputer_evidence", "filed_at", "id", "outcome",
        "respondent", "respondent_evidence", "settled_at", "split_bps", "status", "token"];
    let vals: [Val; 13] = (r.amount, r.arbitrator, r.disputer, r.disputer_evidence, r.filed_at, r.id,
        r.outcome, r.respondent, r.respondent_evidence, r.settled_at, r.split_bps, r.status,
        r.token).into_val(env);
    let Ok(map) = env.map_new_from_slices(&keys, &vals);
    env.storage().persistent().set(&(Symbol::new(env, "Dispute"), id), &map)
}

/// `Persistent::extend_ttl` for a dispute. The host refuses it for a key that
/// holds nothing, for a threshold above the target, and for a target so far off
/// that no ledger has its number.
#[verifier::external_body]
pub(crate) fn extend_dispute_ttl(env: &mut Env, id: &Symbol, threshold: u32, extend_to: u32)
    requires
        storage(*old(env)).disputes.contains_key(*id),
        threshold <= extend_to <= TTL_EXTEND_TO,
    ensures
        asked(
            *old(env),
            *final(env),
            HostCall::ExtendTtl(DataKey::Dispute(*id), threshold, extend_to),
        ),
{
    let key = (Symbol::new(env, "Dispute"), id);
    env.storage().persistent().extend_ttl(&key, threshold, extend_to)
}

/// `Persistent::get` for the list of all dispute ids, which only this contract
/// has written, with symbols only.
#[verifier::external_body]
pub(crate) fn read_dispute_ids(env: &mut Env) -> (list: Option<soroban_sdk::Vec<Symbol>>)
    ensures
        asked(*old(env), *final(env), HostCall::Read(DataKey::DisputeList)),
        match list {
            Some(list) => {
                &&& symbols_of(list) is Some
                &&& storage(*old(env)).dispute_ids == symbols_of(list)
            },
            None => storage(*old(env)).dispute_ids is None,
        },
{
    env.storage().persistent().get(&(Symbol::new(env, "DisputeList"),))
}

/// `Persistent::set` for the list of all dispute ids.
#[verifier::external_body]
pub(crate) fn write_dispute_ids(env: &mut Env, list: &soroban_sdk::Vec<Symbol>)
    requires
        symbols_of(*list) is Some,
    ensures
        requested(
            *old(env),
            *final(env),
            HostCall::Write(DataKey::DisputeList),
            Storage { dispute_ids: symbols_of(*list), ..storage(*old(env)) },
        ),
{
    env.storage().persistent().set(&(Symbol::new(env, "DisputeList"),), list)
}

/// `Persistent::extend_ttl` for the list of all dispute ids. The host refuses
/// it while no list is stored, for a threshold above the target, and for a
/// target so far off that no ledger has its number.
#[verifier::external_body]
pub(crate) fn extend_dispute_ids_ttl(env: &mut Env, threshold: u32, extend_to: u32)
    requires
        storage(*old(env)).dispute_ids is Some,
        threshold <= extend_to <= TTL_EXTEND_TO,
    ensures
        asked(*old(env), *final(env), HostCall::ExtendTtl(DataKey::DisputeList, threshold, extend_to)),
{
    let key = (Symbol::new(env, "DisputeList"),);
    env.storage().persistent().extend_ttl(&key, threshold, extend_to)
}

/// `Address::executable`: whether a contract stands at the address. Which
/// contracts there are is for the ledger to say.
#[verifier::external_body]
pub(crate) fn is_contract(env: &mut Env, address: &Address) -> (found: bool)
    ensures
        asked(*old(env), *final(env), HostCall::IsContract(*address, found)),
{
    match address.executable() {
        Some(Executable::Wasm(_)) => true,
        Some(Executable::StellarAsset) => true,
        Some(Executable::Account) => false,
        None => false,
    }
}

/// `TokenClient::try_transfer`, on a token that was found to be a contract: on
/// an account's address the host would end the invocation. Whether the token
/// contract moves the amount, and reports it, is for that contract to say;
/// either way this contract's storage stays as it is.
#[verifier::external_body]
pub(crate) fn transfer(
    env: &mut Env,
    token: &Address,
    from: &Address,
    to: &Address,
    amount: i128,
) -> (done: bool)
    requires
        host_calls(*old(env)).contains(HostCall::IsContract(*token, true)),
    ensures
        asked(
            *old(env),
            *final(env),
            HostCall::Transfer { token: *token, from: *from, to: *to, amount, done },
        ),
{
    matches!(TokenClient::new(env, token).try_transfer(from, to, &amount), Ok(Ok(())))
}

/// `Events::publish` under a name, with an account for data.
#[verifier::external_body]
#[allow(deprecated)]
pub(crate) fn publish_account(env: &mut Env, name: &str, account: &Address)
    requires
        symbol_text(name@),
    ensures
        asked(
            *old(env),
            *final(env),
            HostCall::Publish(seq![Topic::Name(name@)], Payload::Account(*account)),
        ),
{
    env.events().publish((Symbol::new(env, name),), account)
}

/// `Events::publish` under a name and an account, without data.
#[verifier::external_body]
#[allow(deprecated)]
pub(crate) fn publish_notice(env: &mut Env, name: &str, account: &Address)
    requires
        symbol_text(name@),
    ensures
        asked(
            *old(env),
            *final(env),
            HostCall::Publish(
                seq![Topic::Name(name@), Topic::Account(*account)],
                Payload::Nothing,
            ),
        ),
{
    env.events().publish((Symbol::new(env, name), account), ())
}

/// `Events::publish` under a name, a dispute and an account, with another
/// account and an amount for data.
#[verifier::external_body]
#[allow(deprecated)]
pub(crate) fn publish_claim(
    env: &mut Env,
    name: &str,
    id: &Symbol,
    account: &Address,
    against: &Address,
    amount: i128,
)
    requires
        symbol_text(name@),
    ensures
        asked(
            *old(env),
            *final(env),
            HostCall::Publish(
                seq![Topic::Name(name@), Topic::Id(*id), Topic::Account(*account)],
                Payload::Claim(*against, amount),
            ),
        ),
{
    env.events().publish((Symbol::new(env, name), id, account), (against, amount))
}

/// `Events::publish` under a name, a dispute and an account, without data.
#[verifier::external_body]
#[allow(deprecated)]
pub(crate) fn publish_evidence(env: &mut Env, name: &str, id: &Symbol, account: &Address)
    requires
        symbol_text(name@),
    ensures
        asked(
            *old(env),
            *final(env),
            HostCall::Publish(
                seq![Topic::Name(name@), Topic::Id(*id), Topic::Account(*account)],
                Payload::Nothing,
            ),
        ),
{
    env.events().publish((Symbol::new(env, name), id, account), ())
}

/// `Events::publish` under a name, a dispute and an account, with two numbers for data.
#[verifier::external_body]
#[allow(deprecated)]
pub(crate) fn publish_ruling(
    env: &mut Env,
    name: &str,
    id: &Symbol,
    account: &Address,
    outcome: u32,
    split_bps: u32,
)
    requires
        symbol_text(name@),
    ensures
        asked(
            *old(env),
            *final(env),
            HostCall::Publish(
                seq![Topic::Name(name@), Topic::Id(*id), Topic::Account(*account)],
                Payload::Ruling(outcome, split_bps),
            ),
        ),
{
    env.events().publish((Symbol::new(env, name), id, account), (outcome, split_bps))
}

/// `Events::publish` under a name and a dispute, with a number and an amount for data.
#[verifier::external_body]
#[allow(deprecated)]
pub(crate) fn publish_payout(env: &mut Env, name: &str, id: &Symbol, outcome: u32, amount: i128)
    requires
        symbol_text(name@),
    ensures
        asked(
            *old(env),
            *final(env),
            HostCall::Publish(
                seq![Topic::Name(name@), Topic::Id(*id)],
                Payload::Payout(outcome, amount),
            ),
        ),
{
    env.events().publish((Symbol::new(env, name), id), (outcome, amount))
}

/// `Deployer::update_current_contract_wasm`. The invocation ends here unless
/// the ledger holds code with that hash; the new code runs from the next
/// invocation on.
#[verifier::external_body]
pub(crate) fn update_code(env: &mut Env, hash: BytesN<32>)
    ensures
        asked(*old(env), *final(env), HostCall::UpdateCode(hash)),
{
    env.deployer().update_current_contract_wasm(hash)
}

} // verus!
