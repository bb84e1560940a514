//! Views of the market that read the storage as little as possible.
//!
//! A view loads a record once and answers everything else from memory. Each
//! function states which keys it looks up, in order: that is its storage cost.
//!
//! | Helper                                 | Storage reads |
//! |----------------------------------------|---------------|
//! | `CachedConfigView::load`               | 1             |
//! | `CachedEscrowView::load`               | 1             |
//! | `get_escrow_with_arbitration_cached`   | 2             |
//! | `get_multisig_with_arbitration_cached` | 2             |
//! | `get_escrow_status_batch`              | 1 for each id |

use soroban_sdk::{Env, Symbol};
use vstd::prelude::*;

use crate::ledger::{looked_up, lookups, read_instance_record, read_record_of, record_at, Lookup};
use crate::market::types::{Arbitration, Config, DataKey, Escrow, MarketError, MultiSigEscrow};
use crate::sdk::{symbol_at, symbol_count, symbol_items, symbol_text, symbols_among};

verus! {

/// The configuration that is stored.
pub open spec fn config_at(env: Env) -> Option<Config> {
    match record_at(env, DataKey::Config.place()) {
        Some(record) => Config::of_record(record),
        None => None,
    }
}

/// The escrow stored under an id.
pub open spec fn escrow_at(env: Env, id: Symbol) -> Option<Escrow> {
    match record_at(env, DataKey::Escrow(id).place()) {
        Some(record) => Escrow::of_record(record),
        None => None,
    }
}

/// The multi-signature escrow stored under an id.
pub open spec fn multisig_at(env: Env, id: Symbol) -> Option<MultiSigEscrow> {
    match record_at(env, DataKey::MultiSigEscrow(id).place()) {
        Some(record) => MultiSigEscrow::of_record(record),
        None => None,
    }
}

/// The arbitration stored under an id.
pub open spec fn arbitration_at(env: Env, id: Symbol) -> Option<Arbitration> {
    match record_at(env, DataKey::Arbitration(id).place()) {
        Some(record) => Arbitration::of_record(record),
        None => None,
    }
}

/// One read of a key.
pub open spec fn reading(key: DataKey) -> Lookup {
    Lookup::Read(key.place())
}

/// The names of the keys can all be symbols.
proof fn key_names_are_symbols()
    ensures
        symbol_text("Config"@),
        symbol_text("Escrow"@),
        symbol_text("MultiSigEscrow"@),
        symbol_text("Arbitration"@),
{
    reveal_strlit("Config");
    reveal_strlit("Escrow");
    reveal_strlit("MultiSigEscrow");
    reveal_strlit("Arbitration");
}

/// The configuration, read from storage once.
///
/// All field accesses are in memory.
pub struct CachedConfigView {
    config: Config,
}

impl View for CachedConfigView {
    type V = Config;

    closed spec fn view(&self) -> Config {
        self.config
    }
}

impl CachedConfigView {
    /// Load the configuration from instance storage. Reads once.
    pub fn load(env: &mut Env) -> (view: Result<Self, MarketError>)
        ensures
            looked_up(*old(env), *final(env), seq![reading(DataKey::Config)]),
            match view {
                Ok(view) => config_at(*old(env)) == Some(view@),
                Err(error) => config_at(*old(env)) is None && error == MarketError::NotInitialized,
            },
    {
        proof {
            key_names_are_symbols();
        }
        let found = match read_instance_record(env, "Config") {
            Some(record) => Config::from_record(&record),
            None => None,
        };
        match found {
            Some(config) => Ok(CachedConfigView { config }),
            None => Err(MarketError::NotInitialized),
        }
    }

    /// Protocol fee in basis points (0 to 500).
    pub fn fee_bps(&self) -> (fee_bps: u32)
        ensures
            fee_bps == self@.fee_bps,
    {
        self.config.fee_bps
    }

    /// Whether a non-zero fee is configured.
    pub fn has_fee(&self) -> (has_fee: bool)
        ensures
            has_fee == (self@.fee_bps > 0),
    {
        self.config.fee_bps > 0
    }

    /// Consume the view and return the underlying `Config`.
    pub fn into_config(self) -> (config: Config)
        ensures
            config == self@,
    {
        self.config
    }

    /// Borrow the underlying `Config`.
    pub fn config(&self) -> (config: &Config)
        ensures
            *config == self@,
    {
        &self.config
    }
}

/// The escrow stored under an id. Reads once.
fn find_escrow(env: &mut Env, id: &Symbol) -> (escrow: Option<Escrow>)
    ensures
        looked_up(*old(env), *final(env), seq![reading(DataKey::Escrow(*id))]),
        escrow == escrow_at(*old(env), *id),
{
    proof {
        key_names_are_symbols();
    }
    match read_record_of(env, "Escrow", id) {
        Some(record) => Escrow::from_record(&record),
        None => None,
    }
}

/// The arbitration stored under an id. Reads once.
fn find_arbitration(env: &mut Env, id: &Symbol) -> (arbitration: Option<Arbitration>)
    ensures
        looked_up(*old(env), *final(env), seq![reading(DataKey::Arbitration(*id))]),
        arbitration == arbitration_at(*old(env), *id),
{
    proof {
        key_names_are_symbols();
    }
    match read_record_of(env, "Arbitration", id) {
        Some(record) => Arbitration::from_record(&record),
        None => None,
    }
}

/// Whether an escrow is neither released nor cancelled.
pub open spec fn active(escrow: Escrow) -> bool {
    !escrow.released && !escrow.cancelled
}

/// Whether an escrow has expired at the time `now`.
pub open spec fn expired(escrow: Escrow, now: u64) -> bool {
    escrow.expiry <= now
}

/// An escrow that was read from storage once.
///
/// All field accesses are in memory.
pub struct CachedEscrowView {
    escrow: Escrow,
}

impl View for CachedEscrowView {
    type V = Escrow;

    closed spec fn view(&self) -> Escrow {
        self.escrow
    }
}

impl CachedEscrowView {
    /// Load an escrow from storage. Reads once.
    pub fn load(env: &mut Env, id: Symbol) -> (view: Option<Self>)
        ensures
            looked_up(*old(env), *final(env), seq![reading(DataKey::Escrow(id))]),
            match view {
                Some(view) => escrow_at(*old(env), id) == Some(view@),
                None => escrow_at(*old(env), id) is None,
            },
    {
        match find_escrow(env, &id) {
            Some(escrow) => Some(CachedEscrowView { escrow }),
            None => None,
        }
    }

    /// Whether the escrow has been released.
    pub fn is_released(&self) -> (released: bool)
        ensures
            released == self@.released,
    {
        self.escrow.released
    }

    /// Whether the escrow has been cancelled.
    pub fn is_cancelled(&self) -> (cancelled: bool)
        ensures
            cancelled == self@.cancelled,
    {
        self.escrow.cancelled
    }

    /// Whether the escrow is still active (not released and not cancelled).
    pub fn is_active(&self) -> (is_active: bool)
        ensures
            is_active == active(self@),
    {
        !self.escrow.released && !self.escrow.cancelled
    }

    /// Whether an arbitration request is pending.
    pub fn arbitration_requested(&self) -> (requested: bool)
        ensures
            requested == self@.arbitration_requested,
    {
        self.escrow.arbitration_requested
    }

    /// The locked amount.
    pub fn amount(&self) -> (amount: i128)
        ensures
            amount == self@.amount,
    {
        self.escrow.amount
    }

    /// The expiry timestamp.
    pub fn expiry(&self) -> (expiry: u64)
        ensures
            expiry == self@.expiry,
    {
        self.escrow.expiry
    }

    /// Whether the escrow has expired at the given timestamp.
    pub fn is_expired(&self, now: u64) -> (is_expired: bool)
        ensures
            is_expired == expired(self@, now),
    {
        now >= self.escrow.expiry
    }

    /// Consume the view and return the underlying `Escrow`.
    pub fn into_escrow(self) -> (escrow: Escrow)
        ensures
            escrow == self@,
    {
        self.escrow
    }

    /// Borrow the underlying `Escrow`.
    pub fn escrow(&self) -> (escrow: &Escrow)
        ensures
            *escrow == self@,
    {
        &self.escrow
    }
}

/// The lookups for a record and its arbitration.
pub open spec fn with_arbitration(first: DataKey, id: Symbol) -> Seq<Lookup> {
    seq![reading(first), reading(DataKey::Arbitration(id))]
}

/// Return an escrow and its arbitration record. Reads twice in all cases.
pub fn get_escrow_with_arbitration_cached(env: &mut Env, id: Symbol) -> (found: Option<
    (Escrow, Option<Arbitration>),
>)
    ensures
        looked_up(*old(env), *final(env), with_arbitration(DataKey::Escrow(id), id)),
        found == (match escrow_at(*old(env), id) {
            Some(escrow) => Some((escrow, arbitration_at(*old(env), id))),
            None => None,
        }),
{
    let loaded = find_escrow(env, &id);
    let arbitration = find_arbitration(env, &id);
    assert(lookups(*env) =~= lookups(*old(env)) + with_arbitration(DataKey::Escrow(id), id));
    match loaded {
        Some(escrow) => Some((escrow, arbitration)),
        None => None,
    }
}

/// Return a multi-signature escrow and its arbitration record. Reads twice in
/// all cases.
pub fn get_multisig_with_arbitration_cached(env: &mut Env, id: Symbol) -> (found: Option<
    (MultiSigEscrow, Option<Arbitration>),
>)
    ensures
        looked_up(*old(env), *final(env), with_arbitration(DataKey::MultiSigEscrow(id), id)),
        found == (match multisig_at(*old(env), id) {
            Some(escrow) => Some((escrow, arbitration_at(*old(env), id))),
            None => None,
        }),
{
    proof {
        key_names_are_symbols();
    }
    let loaded = match read_record_of(env, "MultiSigEscrow", &id) {
        Some(record) => MultiSigEscrow::from_record(&record),
        None => None,
    };
    let arbitration = find_arbitration(env, &id);
    assert(lookups(*env) =~= lookups(*old(env)) + with_arbitration(
        DataKey::MultiSigEscrow(id),
        id,
    ));
    match loaded {
        Some(escrow) => Some((escrow, arbitration)),
        None => None,
    }
}

/// A status summary of a single escrow.
pub struct EscrowStatusSummary {
    /// Escrow identifier.
    pub id: Symbol,
    /// Locked amount.
    pub amount: i128,
    /// Expiry timestamp.
    pub expiry: u64,
    /// Whether released.
    pub released: bool,
    /// Whether cancelled.
    pub cancelled: bool,
    /// Whether arbitration has been requested.
    pub arbitration_requested: bool,
}

impl Clone for EscrowStatusSummary {
    fn clone(&self) -> (copy: Self)
        ensures
            copy == *self,
    {
        EscrowStatusSummary {
            id: self.id.clone(),
            amount: self.amount,
            expiry: self.expiry,
            released: self.released,
            cancelled: self.cancelled,
            arbitration_requested: self.arbitration_requested,
        }
    }
}

/// The summary of an escrow that is stored under an id.
pub open spec fn summary_of(id: Symbol, escrow: Escrow) -> EscrowStatusSummary {
    EscrowStatusSummary {
        id,
        amount: escrow.amount,
        expiry: escrow.expiry,
        released: escrow.released,
        cancelled: escrow.cancelled,
        arbitration_requested: escrow.arbitration_requested,
    }
}

/// The summary of what is stored under an id, if an escrow is.
pub open spec fn summary_at(env: Env, id: Symbol) -> Option<EscrowStatusSummary> {
    match escrow_at(env, id) {
        Some(escrow) => Some(summary_of(id, escrow)),
        None => None,
    }
}

/// The summaries of the ids under which escrows are stored, in order.
pub open spec fn summaries_of(env: Env, ids: Seq<Symbol>) -> Seq<EscrowStatusSummary> {
    ids.filter_map(|id: Symbol| summary_at(env, id))
}

/// One read for each id, in order.
pub open spec fn escrow_reads(ids: Seq<Symbol>) -> Seq<Lookup> {
    ids.map_values(|id: Symbol| reading(DataKey::Escrow(id)))
}

/// Return status summaries for a list of escrow ids. Missing ids are skipped.
/// Reads once for each id. An item of the list that is no symbol is no id: it is
/// skipped without a read.
pub fn get_escrow_status_batch(env: &mut Env, ids: soroban_sdk::Vec<Symbol>) -> (summaries: Vec<
    EscrowStatusSummary,
>)
    ensures
        looked_up(*old(env), *final(env), escrow_reads(symbols_among(symbol_items(ids)))),
        summaries@ == summaries_of(*old(env), symbols_among(symbol_items(ids))),
{
    let ghost items = symbol_items(ids);
    let mut summaries: Vec<EscrowStatusSummary> = Vec::new();
    let count: u32 = symbol_count(&ids);
    let mut index: u32 = 0;
    assert(lookups(*env) =~= lookups(*env) + escrow_reads(symbols_among(items.take(0))));
    while index < count
        invariant
            index <= count,
            count == items.len(),
            items == symbol_items(ids),
            looked_up(*old(env), *env, escrow_reads(symbols_among(items.take(index as int)))),
            summaries@ == summaries_of(*old(env), symbols_among(items.take(index as int))),
        decreases count - index,
    {
        let ghost start = *env;
        let ghost before = symbols_among(items.take(index as int));
        let ghost after = symbols_among(items.take(index + 1));
        assert(items.take(index + 1).drop_last() =~= items.take(index as int));
        if let Some(id) = symbol_at(&ids, index) {
            let found = find_escrow(env, &id);
            proof {
                assert(escrow_at(start, id) == escrow_at(*old(env), id));
                assert(after =~= before.push(id));
                assert(after.drop_last() =~= before);
                assert(escrow_reads(after) =~= escrow_reads(before) + seq![
                    reading(DataKey::Escrow(id)),
                ]);
                assert(lookups(*env) =~= lookups(*old(env)) + escrow_reads(after));
            }
            if let Some(escrow) = found {
                summaries.push(
                    EscrowStatusSummary {
                        id,
                        amount: escrow.amount,
                        expiry: escrow.expiry,
                        released: escrow.released,
                        cancelled: escrow.cancelled,
                        arbitration_requested: escrow.arbitration_requested,
                    },
                );
            }
            assert(summaries@ =~= summaries_of(*old(env), after));
        }
        index = index + 1;
    }
    assert(items.take(index as int) =~= items);
    summaries
}

} // verus!
