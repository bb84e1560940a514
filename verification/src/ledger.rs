//! What a contract's views see of the ledger: which entries the contract's
//! storage holds, and which of them were looked up.
//!
//! Every lookup goes through one of the functions below, and each of them rests
//! on the SDK. They take the `Env` by `&mut` to keep account of the lookups: a
//! lookup is what the host meters. An entry may hold a value of any kind. Any
//! lookup may end the invocation instead of returning: when the invocation's
//! budget is used up, or when a ledger entry is not at hand.

use soroban_sdk::{Env, Symbol, TryFromVal, Val};
use vstd::prelude::*;

use crate::sdk::{symbol_text, Record};

verus! {

/// A key of a contract's storage: a name, with the ids that go with it.
pub ghost enum LedgerKey {
    /// Instance storage, under a name.
    Instance(Seq<char>),
    /// Persistent storage, under a name.
    Entry(Seq<char>),
    /// Persistent storage, under a name and an id.
    EntryOf(Seq<char>, Symbol),
    /// Persistent storage, under a name and two ids.
    EntryOfPair(Seq<char>, Symbol, Symbol),
}

/// A lookup in a contract's storage.
pub ghost enum Lookup {
    /// Is anything stored under the key?
    Has(LedgerKey),
    /// What is stored under the key?
    Read(LedgerKey),
}

/// What the contract's storage holds.
pub uninterp spec fn entries(env: Env) -> Map<LedgerKey, Val>;

/// The lookups that the invocation has made, in order.
pub uninterp spec fn lookups(env: Env) -> Seq<Lookup>;

/// The record that a value is; none if it is no map.
pub uninterp spec fn record_in_value(value: Val) -> Option<Record>;

/// The number that a value is; none if it is no `u32`.
pub uninterp spec fn number_in_value(value: Val) -> Option<u32>;

/// What is stored under a key.
pub open spec fn entry_at(env: Env, key: LedgerKey) -> Option<Val> {
    if entries(env).contains_key(key) {
        Some(entries(env)[key])
    } else {
        None
    }
}

/// The record under a key; none if nothing is stored there, or no record.
pub open spec fn record_at(env: Env, key: LedgerKey) -> Option<Record> {
    match entry_at(env, key) {
        Some(value) => record_in_value(value),
        None => None,
    }
}

/// The number under a key; none if nothing is stored there, or no number.
pub open spec fn number_at(env: Env, key: LedgerKey) -> Option<u32> {
    match entry_at(env, key) {
        Some(value) => number_in_value(value),
        None => None,
    }
}

/// Between `pre` and `post` the invocation made the lookups `made`, in order,
/// and the storage stayed as it was.
pub open spec fn looked_up(pre: Env, post: Env, made: Seq<Lookup>) -> bool {
    &&& entries(post) == entries(pre)
    &&& lookups(post) == lookups(pre) + made
}

/// `Persistent::has` under a name and an id.
#[verifier::external_body]
pub(crate) fn has_entry_of(env: &mut Env, name: &str, id: &Symbol) -> (found: bool)
    requires
        symbol_text(name@),
    ensures
        entries(*final(env)) == entries(*old(env)),
        lookups(*final(env)) == lookups(*old(env)) + seq![
            Lookup::Has(LedgerKey::EntryOf(name@, *id)),
        ],
        found == entries(*old(env)).contains_key(LedgerKey::EntryOf(name@, *id)),
{
    env.storage().persistent().has(&(Symbol::new(env, name), id))
}

/// `Persistent::get` under a name and an id.
#[verifier::external_body]
fn read_entry_of(env: &mut Env, name: &str, id: &Symbol) -> (value: Option<Val>)
    requires
        symbol_text(name@),
    ensures
        looked_up(
            *old(env),
            *final(env),
            seq![Lookup::Read(LedgerKey::EntryOf(name@, *id))],
        ),
        value == entry_at(*old(env), LedgerKey::EntryOf(name@, *id)),
{
    env.storage().persistent().get(&(Symbol::new(env, name), id))
}

/// `Persistent::get` under a name and two ids.
#[verifier::external_body]
fn read_entry_of_pair(env: &mut Env, name: &str, first: &Symbol, second: &Symbol) -> (value: Option<
    Val,
>)
    requires
        symbol_text(name@),
    ensures
        looked_up(
            *old(env),
            *final(env),
            seq![Lookup::Read(LedgerKey::EntryOfPair(name@, *first, *second))],
        ),
        value == entry_at(*old(env), LedgerKey::EntryOfPair(name@, *first, *second)),
{
    env.storage().persistent().get(&(Symbol::new(env, name), first, second))
}

/// `Persistent::get` under a name.
#[verifier::external_body]
fn read_entry(env: &mut Env, name: &str) -> (value: Option<Val>)
    requires
        symbol_text(name@),
    ensures
        looked_up(*old(env), *final(env), seq![Lookup::Read(LedgerKey::Entry(name@))]),
        value == entry_at(*old(env), LedgerKey::Entry(name@)),
{
    env.storage().persistent().get(&(Symbol::new(env, name),))
}

/// `Instance::get` under a name.
#[verifier::external_body]
fn read_instance_entry(env: &mut Env, name: &str) -> (value: Option<Val>)
    requires
        symbol_text(name@),
    ensures
        looked_up(*old(env), *final(env), seq![Lookup::Read(LedgerKey::Instance(name@))]),
        value == entry_at(*old(env), LedgerKey::Instance(name@)),
{
    env.storage().instance().get(&(Symbol::new(env, name),))
}

/// `TryFromVal` for a record.
#[verifier::external_body]
fn value_as_record(env: &Env, value: &Val) -> (record: Option<Record>)
    ensures
        record == record_in_value(*value),
{
    Record::try_from_val(env, value).ok()
}

/// `TryFromVal` for a `u32`.
#[verifier::external_body]
fn value_as_number(env: &Env, value: &Val) -> (number: Option<u32>)
    ensures
        number == number_in_value(*value),
{
    u32::try_from_val(env, value).ok()
}

/// Read the record under a name and an id.
pub(crate) fn read_record_of(env: &mut Env, name: &str, id: &Symbol) -> (record: Option<Record>)
    requires
        symbol_text(name@),
    ensures
        looked_up(
            *old(env),
            *final(env),
            seq![Lookup::Read(LedgerKey::EntryOf(name@, *id))],
        ),
        record == record_at(*old(env), LedgerKey::EntryOf(name@, *id)),
{
    match read_entry_of(env, name, id) {
        Some(value) => value_as_record(env, &value),
        None => None,
    }
}

/// Read the record under a name and two ids.
pub(crate) fn read_record_of_pair(
    env: &mut Env,
    name: &str,
    first: &Symbol,
    second: &Symbol,
) -> (record: Option<Record>)
    requires
        symbol_text(name@),
    ensures
        looked_up(
            *old(env),
            *final(env),
            seq![Lookup::Read(LedgerKey::EntryOfPair(name@, *first, *second))],
        ),
        record == record_at(*old(env), LedgerKey::EntryOfPair(name@, *first, *second)),
{
    match read_entry_of_pair(env, name, first, second) {
        Some(value) => value_as_record(env, &value),
        None => None,
    }
}

/// Read the number under a name and an id.
pub(crate) fn read_number_of(env: &mut Env, name: &str, id: &Symbol) -> (number: Option<u32>)
    requires
        symbol_text(name@),
    ensures
        looked_up(
            *old(env),
            *final(env),
            seq![Lookup::Read(LedgerKey::EntryOf(name@, *id))],
        ),
        number == number_at(*old(env), LedgerKey::EntryOf(name@, *id)),
{
    match read_entry_of(env, name, id) {
        Some(value) => value_as_number(env, &value),
        None => None,
    }
}

/// Read the number under a name.
pub(crate) fn read_number(env: &mut Env, name: &str) -> (number: Option<u32>)
    requires
        symbol_text(name@),
    ensures
        looked_up(*old(env), *final(env), seq![Lookup::Read(LedgerKey::Entry(name@))]),
        number == number_at(*old(env), LedgerKey::Entry(name@)),
{
    match read_entry(env, name) {
        Some(value) => value_as_number(env, &value),
        None => None,
    }
}

/// Read the record under a name in instance storage.
pub(crate) fn read_instance_record(env: &mut Env, name: &str) -> (record: Option<Record>)
    requires
        symbol_text(name@),
    ensures
        looked_up(*old(env), *final(env), seq![Lookup::Read(LedgerKey::Instance(name@))]),
        record == record_at(*old(env), LedgerKey::Instance(name@)),
{
    match read_instance_entry(env, name) {
        Some(value) => value_as_record(env, &value),
        None => None,
    }
}

} // verus!
