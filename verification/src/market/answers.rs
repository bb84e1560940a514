//! What the market's views answer, on the entries of the ledger.
//!
//! The laws speak of any call of a view, and of nothing but its arguments, its
//! result, what the entries hold and the lookups it made.

use soroban_sdk::{Env, Symbol};
use vstd::prelude::*;

use crate::ledger::{entries, lookups, record_in_value, LedgerKey, Lookup};
use crate::market::types::{Arbitration, Config, Escrow, MarketError, MultiSigEscrow};
use crate::market::views::{
    escrow_reads, get_escrow_status_batch, get_escrow_with_arbitration_cached,
    get_multisig_with_arbitration_cached, summary_at, CachedConfigView, CachedEscrowView,
    EscrowStatusSummary,
};
use crate::sdk::{
    address_in, batches_find_what_is_there, flag_in, i128_in, symbol_items, symbols_among,
    symbols_among_are_the_symbols, u32_in, u64_in, Record,
};

verus! {

/// The record that an entry holds.
pub open spec fn record_under(env: Env, key: LedgerKey) -> Option<Record> {
    if entries(env).contains_key(key) {
        record_in_value(entries(env)[key])
    } else {
        None
    }
}

/// The record that an escrow's entry holds.
pub open spec fn escrow_record(env: Env, id: Symbol) -> Option<Record> {
    record_under(env, LedgerKey::EntryOf("Escrow"@, id))
}

/// Whether a record has all that makes an escrow.
pub open spec fn is_escrow(record: Record) -> bool {
    &&& i128_in(record, "amount"@) is Some
    &&& u64_in(record, "expiry"@) is Some
    &&& flag_in(record, "released"@) is Some
    &&& flag_in(record, "cancelled"@) is Some
    &&& flag_in(record, "arbitration_requested"@) is Some
}

/// Whether an escrow is stored under an id.
pub open spec fn has_escrow(env: Env, id: Symbol) -> bool {
    escrow_record(env, id) is Some && is_escrow(escrow_record(env, id)->0)
}

/// Whether an escrow is what its record says, field by field.
pub open spec fn is_as_recorded(escrow: Escrow, record: Record) -> bool {
    &&& i128_in(record, "amount"@) == Some(escrow.amount)
    &&& u64_in(record, "expiry"@) == Some(escrow.expiry)
    &&& flag_in(record, "released"@) == Some(escrow.released)
    &&& flag_in(record, "cancelled"@) == Some(escrow.cancelled)
    &&& flag_in(record, "arbitration_requested"@) == Some(escrow.arbitration_requested)
    &&& escrow.record == record
}

/// Whether an arbitration is what is stored under an id, if any is.
pub open spec fn is_arbitration_under(found: Option<Arbitration>, env: Env, id: Symbol) -> bool {
    let stored = record_under(env, LedgerKey::EntryOf("Arbitration"@, id));
    &&& found is Some <==> (stored matches Some(record) && address_in(
        record,
        "arbitrator"@,
    ) is Some && flag_in(record, "resolved"@) is Some)
    &&& found matches Some(found) ==> {
        let record = stored->0;
        &&& address_in(record, "arbitrator"@) == Some(found.arbitrator)
        &&& flag_in(record, "resolved"@) == Some(found.resolved)
        &&& found.record == record
    }
}

/// A configuration is loaded exactly where one is stored, in one read. Without
/// one the market is not initialised.
pub proof fn configurations_are_loaded_where_stored(
    env: &mut Env,
    result: Result<CachedConfigView, MarketError>,
)
    requires
        call_ensures(CachedConfigView::load, (env,), result),
    ensures
        ({
            let stored = record_under(*old(env), LedgerKey::Instance("Config"@));
            &&& result is Ok <==> (stored matches Some(record) && u32_in(
                record,
                "fee_bps"@,
            ) is Some && address_in(record, "fee_recipient"@) is Some)
            &&& result matches Err(error) ==> error == MarketError::NotInitialized
        }),
        entries(*final(env)) == entries(*old(env)),
        lookups(*final(env)) == lookups(*old(env)) + seq![
            Lookup::Read(LedgerKey::Instance("Config"@)),
        ],
{
}

/// A loaded configuration gives what is stored. There is a fee exactly if it is
/// more than nothing.
pub proof fn loaded_configurations_know_the_fee(
    env: &mut Env,
    view: CachedConfigView,
    fee_bps: u32,
    has_fee: bool,
    borrowed: &Config,
    owned: Config,
)
    requires
        call_ensures(CachedConfigView::load, (env,), Ok::<CachedConfigView, MarketError>(view)),
        call_ensures(CachedConfigView::fee_bps, (&view,), fee_bps),
        call_ensures(CachedConfigView::has_fee, (&view,), has_fee),
        call_ensures(CachedConfigView::config, (&view,), borrowed),
        call_ensures(CachedConfigView::into_config, (view,), owned),
    ensures
        ({
            let record = record_under(*old(env), LedgerKey::Instance("Config"@))->0;
            &&& u32_in(record, "fee_bps"@) == Some(fee_bps)
            &&& has_fee <==> fee_bps != 0
            &&& borrowed.fee_bps == fee_bps && owned.fee_bps == fee_bps
            &&& address_in(record, "fee_recipient"@) == Some(borrowed.fee_recipient)
            &&& address_in(record, "fee_recipient"@) == Some(owned.fee_recipient)
            &&& borrowed.record == record && owned.record == record
        }),
{
}

/// A view is loaded exactly where an escrow is stored, in one read.
pub proof fn views_are_loaded_where_escrows_are(
    env: &mut Env,
    id: Symbol,
    view: Option<CachedEscrowView>,
)
    requires
        call_ensures(CachedEscrowView::load, (env, id), view),
    ensures
        view is Some <==> has_escrow(*old(env), id),
        entries(*final(env)) == entries(*old(env)),
        lookups(*final(env)) == lookups(*old(env)) + seq![
            Lookup::Read(LedgerKey::EntryOf("Escrow"@, id)),
        ],
{
}

/// A loaded view gives what is stored of an escrow. It is active exactly while it
/// is neither released nor cancelled.
pub proof fn loaded_views_know_the_status(
    env: &mut Env,
    id: Symbol,
    view: CachedEscrowView,
    released: bool,
    cancelled: bool,
    active: bool,
    requested: bool,
)
    requires
        call_ensures(CachedEscrowView::load, (env, id), Some(view)),
        call_ensures(CachedEscrowView::is_released, (&view,), released),
        call_ensures(CachedEscrowView::is_cancelled, (&view,), cancelled),
        call_ensures(CachedEscrowView::is_active, (&view,), active),
        call_ensures(CachedEscrowView::arbitration_requested, (&view,), requested),
    ensures
        ({
            let record = escrow_record(*old(env), id)->0;
            &&& flag_in(record, "released"@) == Some(released)
            &&& flag_in(record, "cancelled"@) == Some(cancelled)
            &&& flag_in(record, "arbitration_requested"@) == Some(requested)
            &&& active <==> !released && !cancelled
        }),
{
}

/// A loaded view gives the stored amount and expiry. From the expiry on the
/// escrow has expired, and not before.
pub proof fn loaded_views_know_the_terms(
    env: &mut Env,
    id: Symbol,
    view: CachedEscrowView,
    amount: i128,
    expiry: u64,
    now: u64,
    expired: bool,
    borrowed: &Escrow,
    owned: Escrow,
)
    requires
        call_ensures(CachedEscrowView::load, (env, id), Some(view)),
        call_ensures(CachedEscrowView::amount, (&view,), amount),
        call_ensures(CachedEscrowView::expiry, (&view,), expiry),
        call_ensures(CachedEscrowView::is_expired, (&view, now), expired),
        call_ensures(CachedEscrowView::escrow, (&view,), borrowed),
        call_ensures(CachedEscrowView::into_escrow, (view,), owned),
    ensures
        ({
            let record = escrow_record(*old(env), id)->0;
            &&& i128_in(record, "amount"@) == Some(amount)
            &&& u64_in(record, "expiry"@) == Some(expiry)
            &&& expired <==> !(now < expiry)
            &&& is_as_recorded(*borrowed, record)
            &&& is_as_recorded(owned, record)
        }),
{
}

/// An escrow comes with its arbitration, both as they are stored, in two reads.
pub proof fn escrows_come_with_their_arbitration(
    env: &mut Env,
    id: Symbol,
    found: Option<(Escrow, Option<Arbitration>)>,
)
    requires
        call_ensures(get_escrow_with_arbitration_cached, (env, id), found),
    ensures
        found is Some <==> has_escrow(*old(env), id),
        found matches Some((escrow, arbitration)) ==> {
            &&& is_as_recorded(escrow, escrow_record(*old(env), id)->0)
            &&& is_arbitration_under(arbitration, *old(env), id)
        },
        entries(*final(env)) == entries(*old(env)),
        lookups(*final(env)) == lookups(*old(env)) + seq![
            Lookup::Read(LedgerKey::EntryOf("Escrow"@, id)),
            Lookup::Read(LedgerKey::EntryOf("Arbitration"@, id)),
        ],
{
}

/// A multi-signature escrow comes with its arbitration, both as they are stored,
/// in two reads.
pub proof fn multisig_escrows_come_with_their_arbitration(
    env: &mut Env,
    id: Symbol,
    found: Option<(MultiSigEscrow, Option<Arbitration>)>,
)
    requires
        call_ensures(get_multisig_with_arbitration_cached, (env, id), found),
    ensures
        ({
            let stored = record_under(*old(env), LedgerKey::EntryOf("MultiSigEscrow"@, id));
            &&& found is Some <==> (stored matches Some(record) && flag_in(
                record,
                "released"@,
            ) is Some && u32_in(record, "threshold"@) is Some)
            &&& found matches Some((escrow, arbitration)) ==> {
                let record = stored->0;
                &&& flag_in(record, "released"@) == Some(escrow.released)
                &&& u32_in(record, "threshold"@) == Some(escrow.threshold)
                &&& escrow.record == record
                &&& is_arbitration_under(arbitration, *old(env), id)
            }
        }),
        entries(*final(env)) == entries(*old(env)),
        lookups(*final(env)) == lookups(*old(env)) + seq![
            Lookup::Read(LedgerKey::EntryOf("MultiSigEscrow"@, id)),
            Lookup::Read(LedgerKey::EntryOf("Arbitration"@, id)),
        ],
{
}

/// A batch gives one summary for each id of the list under which an escrow is
/// stored, in the order of the list, and each says what the escrow's record says.
/// `there` tells these ids apart.
pub proof fn summaries_say_what_is_stored(
    env: &mut Env,
    ids: soroban_sdk::Vec<Symbol>,
    summaries: Vec<EscrowStatusSummary>,
    there: spec_fn(Option<Symbol>) -> bool,
)
    requires
        call_ensures(get_escrow_status_batch, (env, ids), summaries),
        forall|item: Option<Symbol>| #[trigger]
            there(item) <==> item is Some && has_escrow(*old(env), item->0),
    ensures
        summaries@.len() == symbol_items(ids).filter(there).len(),
        forall|i: int|
            0 <= i < summaries@.len() ==> {
                let summary = #[trigger] summaries@[i];
                let record = escrow_record(*old(env), summary.id)->0;
                &&& symbol_items(ids).filter(there)[i] == Some(summary.id)
                &&& i128_in(record, "amount"@) == Some(summary.amount)
                &&& u64_in(record, "expiry"@) == Some(summary.expiry)
                &&& flag_in(record, "released"@) == Some(summary.released)
                &&& flag_in(record, "cancelled"@) == Some(summary.cancelled)
                &&& flag_in(record, "arbitration_requested"@) == Some(
                    summary.arbitration_requested,
                )
            },
        entries(*final(env)) == entries(*old(env)),
{
    let items = symbol_items(ids);
    let start = *old(env);
    let find = |id: Symbol| summary_at(start, id);
    assert forall|item: Option<Symbol>| #[trigger]
        there(item) <==> item is Some && find(item->0) is Some by {}
    batches_find_what_is_there(items, find, there);
    assert forall|i: int| 0 <= i < summaries@.len() implies ({
        let summary = #[trigger] summaries@[i];
        let record = escrow_record(start, summary.id)->0;
        &&& items.filter(there)[i] == Some(summary.id)
        &&& i128_in(record, "amount"@) == Some(summary.amount)
        &&& u64_in(record, "expiry"@) == Some(summary.expiry)
        &&& flag_in(record, "released"@) == Some(summary.released)
        &&& flag_in(record, "cancelled"@) == Some(summary.cancelled)
        &&& flag_in(record, "arbitration_requested"@) == Some(summary.arbitration_requested)
    }) by {
        let item = items.filter(there)[i];
        assert(find(item->0) == Some(summaries@[i]));
    }
}

/// A batch reads one record for each id of the list, in the order of the list.
/// `is_symbol` tells the ids apart.
pub proof fn summaries_take_one_read_each(
    env: &mut Env,
    ids: soroban_sdk::Vec<Symbol>,
    summaries: Vec<EscrowStatusSummary>,
    is_symbol: spec_fn(Option<Symbol>) -> bool,
)
    requires
        call_ensures(get_escrow_status_batch, (env, ids), summaries),
        forall|item: Option<Symbol>| #[trigger] is_symbol(item) <==> item is Some,
    ensures
        ({
            let start = lookups(*old(env)).len();
            let asked = symbol_items(ids).filter(is_symbol);
            &&& lookups(*final(env)).len() == start + asked.len()
            &&& forall|i: int|
                0 <= i < asked.len() ==> #[trigger] lookups(*final(env))[start + i]
                    == Lookup::Read(LedgerKey::EntryOf("Escrow"@, asked[i]->0))
        }),
{
    let items = symbol_items(ids);
    let start = lookups(*old(env)).len();
    let asked = items.filter(is_symbol);
    symbols_among_are_the_symbols(items, is_symbol);
    assert forall|i: int| 0 <= i < asked.len() implies #[trigger] lookups(*final(env))[start + i]
        == Lookup::Read(LedgerKey::EntryOf("Escrow"@, asked[i]->0)) by {
        assert(lookups(*final(env))[start + i] == escrow_reads(symbols_among(items))[i]);
        assert(asked[i] == Some(symbols_among(items)[i]));
    }
}

/// A record makes one of the market's records exactly if it has the fields, and
/// that is then what the record says.
pub proof fn records_make_market_records(
    record: Record,
    config: Option<Config>,
    escrow: Option<Escrow>,
    multisig: Option<MultiSigEscrow>,
    arbitration: Option<Arbitration>,
)
    requires
        call_ensures(Config::from_record, (&record,), config),
        call_ensures(Escrow::from_record, (&record,), escrow),
        call_ensures(MultiSigEscrow::from_record, (&record,), multisig),
        call_ensures(Arbitration::from_record, (&record,), arbitration),
    ensures
        config is Some <==> u32_in(record, "fee_bps"@) is Some && address_in(
            record,
            "fee_recipient"@,
        ) is Some,
        config matches Some(found) ==> u32_in(record, "fee_bps"@) == Some(found.fee_bps)
            && address_in(record, "fee_recipient"@) == Some(found.fee_recipient) && found.record
            == record,
        escrow is Some <==> is_escrow(record),
        escrow matches Some(found) ==> is_as_recorded(found, record),
        multisig is Some <==> flag_in(record, "released"@) is Some && u32_in(
            record,
            "threshold"@,
        ) is Some,
        multisig matches Some(found) ==> flag_in(record, "released"@) == Some(found.released)
            && u32_in(record, "threshold"@) == Some(found.threshold) && found.record == record,
        arbitration is Some <==> address_in(record, "arbitrator"@) is Some && flag_in(
            record,
            "resolved"@,
        ) is Some,
        arbitration matches Some(found) ==> address_in(record, "arbitrator"@) == Some(
            found.arbitrator,
        ) && flag_in(record, "resolved"@) == Some(found.resolved) && found.record == record,
{
}

/// The market's refusal says why, in words.
pub proof fn refusals_have_their_words(error: MarketError, text: &'static str)
    requires
        call_ensures(MarketError::message, (error,), text),
    ensures
        text@ == "Not initialized"@,
{
}

} // verus!
