//! The records of the market and the keys they are stored under.

use soroban_sdk::{Address, Symbol};
use vstd::prelude::*;

use crate::ledger::LedgerKey;
use crate::sdk::{
    address_field, address_in, flag_field, flag_in, i128_field, i128_in, symbol_text, u32_field,
    u32_in, u64_field, u64_in, Record,
};

verus! {

/// Why a view of the market cannot be had.
#[derive(Clone, Copy, PartialEq, Eq, Debug, Structural)]
pub enum MarketError {
    /// The market has no configuration yet.
    NotInitialized,
}

impl MarketError {
    /// The text of the refusal.
    pub open spec fn text(self) -> Seq<char> {
        match self {
            MarketError::NotInitialized => "Not initialized"@,
        }
    }

    /// The text of the refusal.
    pub fn message(self) -> (text: &'static str)
        ensures
            text@ == self.text(),
    {
        match self {
            MarketError::NotInitialized => "Not initialized",
        }
    }
}

/// The market's configuration.
pub struct Config {
    /// Protocol fee in basis points.
    pub fee_bps: u32,
    /// Who receives the fee.
    pub fee_recipient: Address,
    /// The whole record, with the fields that no view reads.
    pub record: Record,
}

impl Clone for Config {
    fn clone(&self) -> (copy: Self)
        ensures
            copy == *self,
    {
        Config {
            fee_bps: self.fee_bps,
            fee_recipient: self.fee_recipient.clone(),
            record: self.record.clone(),
        }
    }
}

impl Config {
    /// The configuration that a record stands for; none if a field is missing or of another kind.
    pub open spec fn of_record(record: Record) -> Option<Config> {
        if u32_in(record, "fee_bps"@) is Some
            && address_in(record, "fee_recipient"@) is Some {
            Some(Config {
                fee_bps: u32_in(record, "fee_bps"@)->0,
                fee_recipient: address_in(record, "fee_recipient"@)->0,
                record,
            })
        } else {
            None
        }
    }

    /// The configuration that a record stands for, if any.
    pub fn from_record(record: &Record) -> (found: Option<Config>)
        ensures
            found == Config::of_record(*record),
    {
        proof {
            field_names_are_symbols();
        }
        let fee_bps: u32 = match u32_field(record, "fee_bps") {
            Some(value) => value,
            None => return None,
        };
        let fee_recipient = match address_field(record, "fee_recipient") {
            Some(value) => value,
            None => return None,
        };
        Some(Config { fee_bps, fee_recipient, record: record.clone() })
    }
}

/// An amount locked for a job.
pub struct Escrow {
    /// The locked amount.
    pub amount: i128,
    /// When the escrow expires.
    pub expiry: u64,
    /// Whether the amount was released.
    pub released: bool,
    /// Whether the escrow was cancelled.
    pub cancelled: bool,
    /// Whether arbitration was requested.
    pub arbitration_requested: bool,
    /// The whole record, with the fields that no view reads.
    pub record: Record,
}

impl Clone for Escrow {
    fn clone(&self) -> (copy: Self)
        ensures
            copy == *self,
    {
        Escrow {
            amount: self.amount,
            expiry: self.expiry,
            released: self.released,
            cancelled: self.cancelled,
            arbitration_requested: self.arbitration_requested,
            record: self.record.clone(),
        }
    }
}

impl Escrow {
    /// The escrow that a record stands for; none if a field is missing or of another kind.
    pub open spec fn of_record(record: Record) -> Option<Escrow> {
        if i128_in(record, "amount"@) is Some
            && u64_in(record, "expiry"@) is Some
            && flag_in(record, "released"@) is Some
            && flag_in(record, "cancelled"@) is Some
            && flag_in(record, "arbitration_requested"@) is Some {
            Some(Escrow {
                amount: i128_in(record, "amount"@)->0,
                expiry: u64_in(record, "expiry"@)->0,
                released: flag_in(record, "released"@)->0,
                cancelled: flag_in(record, "cancelled"@)->0,
                arbitration_requested: flag_in(record, "arbitration_requested"@)->0,
                record,
            })
        } else {
            None
        }
    }

    /// The escrow that a record stands for, if any.
    pub fn from_record(record: &Record) -> (found: Option<Escrow>)
        ensures
            found == Escrow::of_record(*record),
    {
        proof {
            field_names_are_symbols();
        }
        let amount: i128 = match i128_field(record, "amount") {
            Some(value) => value,
            None => return None,
        };
        let expiry: u64 = match u64_field(record, "expiry") {
            Some(value) => value,
            None => return None,
        };
        let released = match flag_field(record, "released") {
            Some(value) => value,
            None => return None,
        };
        let cancelled = match flag_field(record, "cancelled") {
            Some(value) => value,
            None => return None,
        };
        let arbitration_requested = match flag_field(record, "arbitration_requested") {
            Some(value) => value,
            None => return None,
        };
        Some(
            Escrow {
                amount,
                expiry,
                released,
                cancelled,
                arbitration_requested,
                record: record.clone(),
            },
        )
    }
}

/// An escrow that several signers release together.
pub struct MultiSigEscrow {
    /// Whether the amount was released.
    pub released: bool,
    /// How many signers must approve.
    pub threshold: u32,
    /// The whole record, with the fields that no view reads.
    pub record: Record,
}

impl Clone for MultiSigEscrow {
    fn clone(&self) -> (copy: Self)
        ensures
            copy == *self,
    {
        MultiSigEscrow {
            released: self.released,
            threshold: self.threshold,
            record: self.record.clone(),
        }
    }
}

impl MultiSigEscrow {
    /// The escrow that a record stands for; none if a field is missing or of another kind.
    pub open spec fn of_record(record: Record) -> Option<MultiSigEscrow> {
        if flag_in(record, "released"@) is Some
            && u32_in(record, "threshold"@) is Some {
            Some(MultiSigEscrow {
                released: flag_in(record, "released"@)->0,
                threshold: u32_in(record, "threshold"@)->0,
                record,
            })
        } else {
            None
        }
    }

    /// The escrow that a record stands for, if any.
    pub fn from_record(record: &Record) -> (found: Option<MultiSigEscrow>)
        ensures
            found == MultiSigEscrow::of_record(*record),
    {
        proof {
            field_names_are_symbols();
        }
        let released = match flag_field(record, "released") {
            Some(value) => value,
            None => return None,
        };
        let threshold: u32 = match u32_field(record, "threshold") {
            Some(value) => value,
            None => return None,
        };
        Some(MultiSigEscrow { released, threshold, record: record.clone() })
    }
}

/// The arbitration of an escrow.
pub struct Arbitration {
    /// Who arbitrates.
    pub arbitrator: Address,
    /// Whether the arbitration is over.
    pub resolved: bool,
    /// The whole record, with the fields that no view reads.
    pub record: Record,
}

impl Clone for Arbitration {
    fn clone(&self) -> (copy: Self)
        ensures
            copy == *self,
    {
        Arbitration {
            arbitrator: self.arbitrator.clone(),
            resolved: self.resolved,
            record: self.record.clone(),
        }
    }
}

impl Arbitration {
    /// The arbitration that a record stands for; none if a field is missing or of another kind.
    pub open spec fn of_record(record: Record) -> Option<Arbitration> {
        if address_in(record, "arbitrator"@) is Some
            && flag_in(record, "resolved"@) is Some {
            Some(Arbitration {
                arbitrator: address_in(record, "arbitrator"@)->0,
                resolved: flag_in(record, "resolved"@)->0,
                record,
            })
        } else {
            None
        }
    }

    /// The arbitration that a record stands for, if any.
    pub fn from_record(record: &Record) -> (found: Option<Arbitration>)
        ensures
            found == Arbitration::of_record(*record),
    {
        proof {
            field_names_are_symbols();
        }
        let arbitrator = match address_field(record, "arbitrator") {
            Some(value) => value,
            None => return None,
        };
        let resolved = match flag_field(record, "resolved") {
            Some(value) => value,
            None => return None,
        };
        Some(Arbitration { arbitrator, resolved, record: record.clone() })
    }
}

/// The names of the fields can all be symbols.
proof fn field_names_are_symbols()
    ensures
        symbol_text("fee_bps"@),
        symbol_text("fee_recipient"@),
        symbol_text("amount"@),
        symbol_text("expiry"@),
        symbol_text("released"@),
        symbol_text("cancelled"@),
        symbol_text("arbitration_requested"@),
        symbol_text("threshold"@),
        symbol_text("arbitrator"@),
        symbol_text("resolved"@),
{
    reveal_strlit("fee_bps");
    reveal_strlit("fee_recipient");
    reveal_strlit("amount");
    reveal_strlit("expiry");
    reveal_strlit("released");
    reveal_strlit("cancelled");
    reveal_strlit("arbitration_requested");
    reveal_strlit("threshold");
    reveal_strlit("arbitrator");
    reveal_strlit("resolved");
}

/// Storage keys of the market.
pub ghost enum DataKey {
    /// The configuration, in instance storage.
    Config,
    /// An escrow by id.
    Escrow(Symbol),
    /// A multi-signature escrow by id.
    MultiSigEscrow(Symbol),
    /// The arbitration of an escrow, by the escrow's id.
    Arbitration(Symbol),
}

impl DataKey {
    /// Where in the ledger the key points.
    pub open spec fn place(self) -> LedgerKey {
        match self {
            DataKey::Config => LedgerKey::Instance("Config"@),
            DataKey::Escrow(id) => LedgerKey::EntryOf("Escrow"@, id),
            DataKey::MultiSigEscrow(id) => LedgerKey::EntryOf("MultiSigEscrow"@, id),
            DataKey::Arbitration(id) => LedgerKey::EntryOf("Arbitration"@, id),
        }
    }
}

} // verus!
