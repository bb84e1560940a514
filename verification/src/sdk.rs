//! The types of the Soroban SDK that the contracts carry through, and the few
//! operations on them that the contracts' rules rest on.
//!
//! A `Symbol`, an `Address`, a `String` and a `BytesN` are handles to host
//! objects. In specifications such a value stands for the content of the
//! object: two of them are equal when their contents are. A `Vec` and a `Map`
//! of the host stand for their contents likewise. A `Vec` may hold items that
//! are not of its item type: the SDK converts an item only when it is asked for.

use soroban_sdk::{Address, BytesN, Env, Symbol, TryFromVal, Val};
use vstd::prelude::*;

use crate::batch::complete_batches_keep_the_order;

verus! {

/// The handle through which an invocation reaches the Soroban host.
#[verifier::external_type_specification]
#[verifier::external_body]
pub struct ExEnv(soroban_sdk::Env);

/// An account or a contract.
#[verifier::external_type_specification]
#[verifier::external_body]
pub struct ExAddress(soroban_sdk::Address);

/// A short identifier.
#[verifier::external_type_specification]
#[verifier::external_body]
pub struct ExSymbol(soroban_sdk::Symbol);

/// A string that the host holds.
#[verifier::external_type_specification]
#[verifier::external_body]
pub struct ExString(soroban_sdk::String);

/// A byte string of fixed length that the host holds.
#[verifier::external_type_specification]
#[verifier::external_body]
pub struct ExBytesN<const N: usize>(soroban_sdk::BytesN<N>);

/// A list that the host holds.
#[verifier::external_type_specification]
#[verifier::external_body]
#[verifier::reject_recursive_types(T)]
pub struct ExVec<T>(soroban_sdk::Vec<T>);

/// A value as the host passes it, of any type.
#[verifier::external_type_specification]
#[verifier::external_body]
pub struct ExVal(soroban_sdk::Val);

/// A map that the host holds.
#[verifier::external_type_specification]
#[verifier::external_body]
#[verifier::reject_recursive_types(K)]
#[verifier::reject_recursive_types(V)]
pub struct ExMap<K, V>(soroban_sdk::Map<K, V>);

/// A record as the host holds it: a map from the names of its fields to their values.
pub type Record = soroban_sdk::Map<Symbol, Val>;

/// Whether a text can be a symbol.
pub open spec fn symbol_text(text: Seq<char>) -> bool {
    &&& text.len() <= 32
    &&& forall|i: int|
        0 <= i < text.len() ==> {
            ||| 'a' <= #[trigger] text[i] <= 'z'
            ||| 'A' <= text[i] <= 'Z'
            ||| '0' <= text[i] <= '9'
            ||| text[i] == '_'
        }
}

/// `Address::clone` gives a second handle to the same address.
pub assume_specification[ <soroban_sdk::Address as Clone>::clone ](
    address: &soroban_sdk::Address,
) -> (copy: soroban_sdk::Address)
    ensures
        copy == *address,
;

/// `Symbol::clone` gives a second handle to the same symbol.
pub assume_specification[ <soroban_sdk::Symbol as Clone>::clone ](
    symbol: &soroban_sdk::Symbol,
) -> (copy: soroban_sdk::Symbol)
    ensures
        copy == *symbol,
;

/// `String::clone` gives a second handle to the same string.
pub assume_specification[ <soroban_sdk::String as Clone>::clone ](
    text: &soroban_sdk::String,
) -> (copy: soroban_sdk::String)
    ensures
        copy == *text,
;

/// `BytesN::clone` gives a second handle to the same bytes.
pub assume_specification<const N: usize>[ <soroban_sdk::BytesN<N> as Clone>::clone ](
    bytes: &soroban_sdk::BytesN<N>,
) -> (copy: soroban_sdk::BytesN<N>)
    ensures
        copy == *bytes,
;

/// `Vec::clone` gives a second handle to the same list.
pub assume_specification<T>[ <soroban_sdk::Vec<T> as Clone>::clone ](
    list: &soroban_sdk::Vec<T>,
) -> (copy: soroban_sdk::Vec<T>)
    ensures
        copy == *list,
;

/// `Map::clone` gives a second handle to the same map.
pub assume_specification<K: Clone, V: Clone>[ <soroban_sdk::Map<K, V> as Clone>::clone ](
    map: &soroban_sdk::Map<K, V>,
) -> (copy: soroban_sdk::Map<K, V>)
    ensures
        copy == *map,
;

/// `==` on `Address`: whether the two name the same account or contract.
#[verifier::external_body]
pub(crate) fn same_address(a: &Address, b: &Address) -> (same: bool)
    ensures
        same == (*a == *b),
{
    a == b
}

/// `==` on `Symbol`: whether the two are spelled alike.
#[verifier::external_body]
pub(crate) fn same_symbol(a: &Symbol, b: &Symbol) -> (same: bool)
    ensures
        same == (*a == *b),
{
    a == b
}

/// The items of a host list of addresses, in order; none for an item that is no address.
pub uninterp spec fn address_items(list: soroban_sdk::Vec<Address>) -> Seq<Option<Address>>;

/// The items of a host list of symbols, in order; none for an item that is no symbol.
pub uninterp spec fn symbol_items(list: soroban_sdk::Vec<Symbol>) -> Seq<Option<Symbol>>;

/// The addresses that a list holds, if it holds addresses only.
pub open spec fn addresses_of(list: soroban_sdk::Vec<Address>) -> Option<Seq<Address>> {
    if forall|i: int|
        0 <= i < address_items(list).len() ==> #[trigger] address_items(list)[i] is Some {
        Some(address_items(list).map_values(|item: Option<Address>| item->0))
    } else {
        None
    }
}

/// The symbols that a list holds, if it holds symbols only.
pub open spec fn symbols_of(list: soroban_sdk::Vec<Symbol>) -> Option<Seq<Symbol>> {
    if forall|i: int|
        0 <= i < symbol_items(list).len() ==> #[trigger] symbol_items(list)[i] is Some {
        Some(symbol_items(list).map_values(|item: Option<Symbol>| item->0))
    } else {
        None
    }
}

/// The symbols among the items of a list, in order.
pub open spec fn symbols_among(items: Seq<Option<Symbol>>) -> Seq<Symbol> {
    items.filter_map(|item: Option<Symbol>| item)
}

/// A list of symbols only has all its items among its symbols.
pub proof fn lists_of_symbols_leave_nothing_out(list: soroban_sdk::Vec<Symbol>)
    requires
        symbols_of(list) is Some,
    ensures
        symbols_among(symbol_items(list)) == symbols_of(list)->0,
{
    let items = symbol_items(list);
    let keep = |item: Option<Symbol>| item;
    assert forall|i: int| 0 <= i < items.len() implies keep(#[trigger] items[i]) is Some by {
        assert(items[i] is Some);
    }
    complete_batches_keep_the_order(items, keep);
    assert(symbols_among(items) =~= symbols_of(list)->0);
}

/// The symbols among the items of a list are the items that are symbols, in
/// order. `is_symbol` tells them apart.
pub proof fn symbols_among_are_the_symbols(
    items: Seq<Option<Symbol>>,
    is_symbol: spec_fn(Option<Symbol>) -> bool,
)
    requires
        forall|item: Option<Symbol>| #[trigger] is_symbol(item) <==> item is Some,
    ensures
        symbols_among(items).len() == items.filter(is_symbol).len(),
        forall|i: int|
            0 <= i < symbols_among(items).len() ==> items.filter(is_symbol)[i] == Some(
                #[trigger] symbols_among(items)[i],
            ),
    decreases items.len(),
{
    reveal(Seq::filter);
    if items.len() > 0 {
        symbols_among_are_the_symbols(items.drop_last(), is_symbol);
        assert(is_symbol(items.last()) <==> items.last() is Some);
    }
}

/// A batch over the symbols of a list finds one thing for each item for which
/// there is one, in order. `there` tells these items apart.
pub proof fn batches_find_what_is_there<B>(
    items: Seq<Option<Symbol>>,
    find: spec_fn(Symbol) -> Option<B>,
    there: spec_fn(Option<Symbol>) -> bool,
)
    requires
        forall|item: Option<Symbol>| #[trigger]
            there(item) <==> item is Some && find(item->0) is Some,
    ensures
        symbols_among(items).filter_map(find).len() == items.filter(there).len(),
        forall|i: int|
            0 <= i < items.filter(there).len() ==> {
                let item = #[trigger] items.filter(there)[i];
                &&& item is Some
                &&& find(item->0) == Some(symbols_among(items).filter_map(find)[i])
            },
    decreases items.len(),
{
    reveal(Seq::filter);
    if items.len() > 0 {
        let rest = items.drop_last();
        let last = items.last();
        batches_find_what_is_there(rest, find, there);
        assert(there(last) <==> last is Some && find(last->0) is Some);
        if last is Some {
            assert(symbols_among(items) =~= symbols_among(rest).push(last->0));
            assert(symbols_among(items).drop_last() =~= symbols_among(rest));
        }
    }
}

/// `Vec::new` for addresses: a list with nothing in it.
#[verifier::external_body]
fn new_address_list(env: &Env) -> (list: soroban_sdk::Vec<Address>)
    ensures
        address_items(list) == Seq::<Option<Address>>::empty(),
{
    soroban_sdk::Vec::new(env)
}

/// `Vec::len` for addresses.
#[verifier::external_body]
pub(crate) fn address_count(list: &soroban_sdk::Vec<Address>) -> (count: u32)
    ensures
        count == address_items(*list).len(),
{
    list.len()
}

/// `Vec::get_unchecked` for addresses, on an index under which the list has an address.
#[verifier::external_body]
pub(crate) fn address_at(list: &soroban_sdk::Vec<Address>, index: u32) -> (item: Address)
    requires
        index < address_items(*list).len(),
        address_items(*list)[index as int] is Some,
    ensures
        Some(item) == address_items(*list)[index as int],
{
    list.get_unchecked(index)
}

/// `Vec::push_back` for addresses: the list gains one item at its end.
#[verifier::external_body]
fn append_address(list: &mut soroban_sdk::Vec<Address>, item: Address)
    ensures
        address_items(*final(list)) == address_items(*old(list)).push(Some(item)),
{
    list.push_back(item)
}

/// `Vec::new` for symbols: a list with nothing in it.
#[verifier::external_body]
fn new_symbol_list(env: &Env) -> (list: soroban_sdk::Vec<Symbol>)
    ensures
        symbol_items(list) == Seq::<Option<Symbol>>::empty(),
{
    soroban_sdk::Vec::new(env)
}

/// `Vec::len` for symbols.
#[verifier::external_body]
pub(crate) fn symbol_count(list: &soroban_sdk::Vec<Symbol>) -> (count: u32)
    ensures
        count == symbol_items(*list).len(),
{
    list.len()
}

/// `Vec::try_get_unchecked` for symbols, on an index that the list has.
#[verifier::external_body]
pub(crate) fn symbol_at(list: &soroban_sdk::Vec<Symbol>, index: u32) -> (item: Option<Symbol>)
    requires
        index < symbol_items(*list).len(),
    ensures
        item == symbol_items(*list)[index as int],
{
    list.try_get_unchecked(index).ok()
}

/// `Vec::push_back` for symbols: the list gains one item at its end.
#[verifier::external_body]
fn append_symbol(list: &mut soroban_sdk::Vec<Symbol>, item: Symbol)
    ensures
        symbol_items(*final(list)) == symbol_items(*old(list)).push(Some(item)),
{
    list.push_back(item)
}

/// A list of no addresses.
pub(crate) fn no_addresses(env: &Env) -> (list: soroban_sdk::Vec<Address>)
    ensures
        addresses_of(list) == Some(Seq::<Address>::empty()),
{
    let list = new_address_list(env);
    assert(addresses_of(list)->0 =~= Seq::<Address>::empty());
    list
}

/// Append an address to a list of addresses.
pub(crate) fn push_address(list: &mut soroban_sdk::Vec<Address>, item: Address)
    requires
        addresses_of(*old(list)) is Some,
    ensures
        addresses_of(*final(list)) == Some((addresses_of(*old(list))->0).push(item)),
{
    append_address(list, item);
    assert(addresses_of(*list)->0 =~= (addresses_of(*old(list))->0).push(item));
}

/// A list of no symbols.
pub(crate) fn no_symbols(env: &Env) -> (list: soroban_sdk::Vec<Symbol>)
    ensures
        symbols_of(list) == Some(Seq::<Symbol>::empty()),
{
    let list = new_symbol_list(env);
    assert(symbols_of(list)->0 =~= Seq::<Symbol>::empty());
    list
}

/// Append a symbol to a list of symbols.
pub(crate) fn push_symbol(list: &mut soroban_sdk::Vec<Symbol>, item: Symbol)
    requires
        symbols_of(*old(list)) is Some,
    ensures
        symbols_of(*final(list)) == Some((symbols_of(*old(list))->0).push(item)),
{
    append_symbol(list, item);
    assert(symbols_of(*list)->0 =~= (symbols_of(*old(list))->0).push(item));
}

/// Whether a list of addresses holds `wanted`.
pub(crate) fn has_address(list: &soroban_sdk::Vec<Address>, wanted: &Address) -> (found: bool)
    requires
        addresses_of(*list) is Some,
    ensures
        found == (addresses_of(*list)->0).contains(*wanted),
{
    let count: u32 = address_count(list);
    let mut index: u32 = 0;
    let ghost items = addresses_of(*list)->0;
    while index < count
        invariant
            index <= count,
            count == address_items(*list).len(),
            addresses_of(*list) == Some(items),
            forall|i: int| 0 <= i < index ==> items[i] != *wanted,
        decreases count - index,
    {
        if same_address(&address_at(list, index), wanted) {
            assert(items[index as int] == *wanted);
            return true;
        }
        index = index + 1;
    }
    false
}

/// Whether a list holds the symbol `wanted`.
pub(crate) fn has_symbol(list: &soroban_sdk::Vec<Symbol>, wanted: &Symbol) -> (found: bool)
    ensures
        found == symbol_items(*list).contains(Some(*wanted)),
{
    let count: u32 = symbol_count(list);
    let mut index: u32 = 0;
    while index < count
        invariant
            index <= count,
            count == symbol_items(*list).len(),
            forall|i: int| 0 <= i < index ==> symbol_items(*list)[i] != Some(*wanted),
        decreases count - index,
    {
        if let Some(item) = symbol_at(list, index) {
            if same_symbol(&item, wanted) {
                assert(symbol_items(*list)[index as int] == Some(*wanted));
                return true;
            }
        }
        index = index + 1;
    }
    false
}

/// The value of a record's field, where the record has the field and it holds a `u32`.
pub uninterp spec fn u32_in(record: Record, field: Seq<char>) -> Option<u32>;

/// `Map::get`, and `TryFromVal` for a `u32`, on a record's field.
#[verifier::external_body]
pub(crate) fn u32_field(record: &Record, field: &str) -> (value: Option<u32>)
    requires
        symbol_text(field@),
    ensures
        value == u32_in(*record, field@),
{
    let value = record.get(Symbol::new(record.env(), field))?;
    u32::try_from_val(record.env(), &value).ok()
}

/// The value of a record's field, where the record has the field and it holds a `u64`.
pub uninterp spec fn u64_in(record: Record, field: Seq<char>) -> Option<u64>;

/// `Map::get`, and `TryFromVal` for a `u64`, on a record's field.
#[verifier::external_body]
pub(crate) fn u64_field(record: &Record, field: &str) -> (value: Option<u64>)
    requires
        symbol_text(field@),
    ensures
        value == u64_in(*record, field@),
{
    let value = record.get(Symbol::new(record.env(), field))?;
    u64::try_from_val(record.env(), &value).ok()
}

/// The value of a record's field, where the record has the field and it holds an `i128`.
pub uninterp spec fn i128_in(record: Record, field: Seq<char>) -> Option<i128>;

/// `Map::get`, and `TryFromVal` for an `i128`, on a record's field.
#[verifier::external_body]
pub(crate) fn i128_field(record: &Record, field: &str) -> (value: Option<i128>)
    requires
        symbol_text(field@),
    ensures
        value == i128_in(*record, field@),
{
    let value = record.get(Symbol::new(record.env(), field))?;
    i128::try_from_val(record.env(), &value).ok()
}

/// The value of a record's field, where the record has the field and it holds a `bool`.
pub uninterp spec fn flag_in(record: Record, field: Seq<char>) -> Option<bool>;

/// `Map::get`, and `TryFromVal` for a `bool`, on a record's field.
#[verifier::external_body]
pub(crate) fn flag_field(record: &Record, field: &str) -> (value: Option<bool>)
    requires
        symbol_text(field@),
    ensures
        value == flag_in(*record, field@),
{
    let value = record.get(Symbol::new(record.env(), field))?;
    bool::try_from_val(record.env(), &value).ok()
}

/// The value of a record's field, where the record has the field and it holds an address.
pub uninterp spec fn address_in(record: Record, field: Seq<char>) -> Option<Address>;

/// `Map::get`, and `TryFromVal` for an address, on a record's field.
#[verifier::external_body]
pub(crate) fn address_field(record: &Record, field: &str) -> (value: Option<Address>)
    requires
        symbol_text(field@),
    ensures
        value == address_in(*record, field@),
{
    let value = record.get(Symbol::new(record.env(), field))?;
    Address::try_from_val(record.env(), &value).ok()
}

/// The value of a record's field, where the record has the field and it holds a symbol.
pub uninterp spec fn symbol_in(record: Record, field: Seq<char>) -> Option<Symbol>;

/// `Map::get`, and `TryFromVal` for a symbol, on a record's field.
#[verifier::external_body]
pub(crate) fn symbol_field(record: &Record, field: &str) -> (value: Option<Symbol>)
    requires
        symbol_text(field@),
    ensures
        value == symbol_in(*record, field@),
{
    let value = record.get(Symbol::new(record.env(), field))?;
    Symbol::try_from_val(record.env(), &value).ok()
}

/// The value of a record's field, where the record has the field and it holds a hash of 32 bytes.
pub uninterp spec fn hash_in(record: Record, field: Seq<char>) -> Option<BytesN<32>>;

/// `Map::get`, and `TryFromVal` for a hash of 32 bytes, on a record's field.
#[verifier::external_body]
pub(crate) fn hash_field(record: &Record, field: &str) -> (value: Option<BytesN<32>>)
    requires
        symbol_text(field@),
    ensures
        value == hash_in(*record, field@),
{
    let value = record.get(Symbol::new(record.env(), field))?;
    BytesN::<32>::try_from_val(record.env(), &value).ok()
}

/// The value of a record's field, where the record has the field and it holds a list of symbols.
pub uninterp spec fn symbols_in(record: Record, field: Seq<char>) -> Option<soroban_sdk::Vec<Symbol>>;

/// `Map::get`, and `TryFromVal` for a list of symbols, on a record's field.
#[verifier::external_body]
pub(crate) fn symbols_field(record: &Record, field: &str) -> (value: Option<soroban_sdk::Vec<Symbol>>)
    requires
        symbol_text(field@),
    ensures
        value == symbols_in(*record, field@),
{
    let value = record.get(Symbol::new(record.env(), field))?;
    soroban_sdk::Vec::<Symbol>::try_from_val(record.env(), &value).ok()
}

/// The value of a record's field, where the record has the field and it holds a record.
pub uninterp spec fn record_in(record: Record, field: Seq<char>) -> Option<Record>;

/// `Map::get`, and `TryFromVal` for a record, on a record's field.
#[verifier::external_body]
pub(crate) fn record_field(record: &Record, field: &str) -> (value: Option<Record>)
    requires
        symbol_text(field@),
    ensures
        value == record_in(*record, field@),
{
    let value = record.get(Symbol::new(record.env(), field))?;
    Record::try_from_val(record.env(), &value).ok()
}

} // verus!
