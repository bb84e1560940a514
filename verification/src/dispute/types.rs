//! The records, keys, errors and ledger model of the dispute contract.

use soroban_sdk::{Address, BytesN, Symbol};
use vstd::prelude::*;

verus! {

/// Event schema version; bump it when adding, removing or renaming events.
pub const VERSION: u32 = 1;

/// Ledgers that a record is kept alive for after a write, about a year at five seconds each.
pub const TTL_EXTEND_TO: u32 = 535_000;

/// A record's lifetime is extended only once it has sunk to this many ledgers.
pub const TTL_THRESHOLD: u32 = 267_500;

/// A whole, in basis points.
pub const WHOLE_BPS: u32 = 10_000;

/// Dispute lifecycle phase.
#[derive(Clone, Copy, PartialEq, Eq, Debug, Structural)]
pub enum DisputeStatus {
    /// Dispute filed; tokens locked; awaiting evidence.
    Open,
    /// At least one party has submitted evidence.
    Evidence,
    /// Arbitrator has recorded a decision; awaiting settlement.
    Decided,
    /// Tokens have been transferred; dispute closed.
    Settled,
}

impl DisputeStatus {
    /// The number that stands for the phase in storage.
    pub open spec fn code_of(self) -> u32 {
        match self {
            DisputeStatus::Open => 0,
            DisputeStatus::Evidence => 1,
            DisputeStatus::Decided => 2,
            DisputeStatus::Settled => 3,
        }
    }

    /// The phase that a number stands for.
    pub open spec fn of_code(code: u32) -> Option<DisputeStatus> {
        if code == 0 {
            Some(DisputeStatus::Open)
        } else if code == 1 {
            Some(DisputeStatus::Evidence)
        } else if code == 2 {
            Some(DisputeStatus::Decided)
        } else if code == 3 {
            Some(DisputeStatus::Settled)
        } else {
            None
        }
    }

    /// Whether evidence may still be submitted and a decision recorded.
    pub open spec fn undecided(self) -> bool {
        self == DisputeStatus::Open || self == DisputeStatus::Evidence
    }

    /// The number that stands for the phase in storage.
    pub fn code(self) -> (code: u32)
        ensures
            code == self.code_of(),
    {
        match self {
            DisputeStatus::Open => 0,
            DisputeStatus::Evidence => 1,
            DisputeStatus::Decided => 2,
            DisputeStatus::Settled => 3,
        }
    }

    /// The phase that a number stands for, if any.
    pub fn from_code(code: u32) -> (status: Option<DisputeStatus>)
        ensures
            status == DisputeStatus::of_code(code),
    {
        match code {
            0 => Some(DisputeStatus::Open),
            1 => Some(DisputeStatus::Evidence),
            2 => Some(DisputeStatus::Decided),
            3 => Some(DisputeStatus::Settled),
            _ => None,
        }
    }
}

/// Arbitrator's decision on the dispute.
#[derive(Clone, Copy, PartialEq, Eq, Debug, Structural)]
pub enum DisputeOutcome {
    /// Full refund to the disputer (payer).
    RefundDisputer,
    /// Full release to the respondent (worker).
    ReleaseRespondent,
    /// Split: respondent gets the `split_bps` share; remainder to disputer.
    Split,
}

impl DisputeOutcome {
    /// The number that stands for the decision in storage and in events.
    pub open spec fn code_of(self) -> u32 {
        match self {
            DisputeOutcome::RefundDisputer => 0,
            DisputeOutcome::ReleaseRespondent => 1,
            DisputeOutcome::Split => 2,
        }
    }

    /// The decision that a number stands for.
    pub open spec fn of_code(code: u32) -> Option<DisputeOutcome> {
        if code == 0 {
            Some(DisputeOutcome::RefundDisputer)
        } else if code == 1 {
            Some(DisputeOutcome::ReleaseRespondent)
        } else if code == 2 {
            Some(DisputeOutcome::Split)
        } else {
            None
        }
    }

    /// The number that stands for the decision in storage and in events.
    pub fn code(self) -> (code: u32)
        ensures
            code == self.code_of(),
    {
        match self {
            DisputeOutcome::RefundDisputer => 0,
            DisputeOutcome::ReleaseRespondent => 1,
            DisputeOutcome::Split => 2,
        }
    }

    /// The decision that a number stands for, if any.
    pub fn from_code(code: u32) -> (outcome: Option<DisputeOutcome>)
        ensures
            outcome == DisputeOutcome::of_code(code),
    {
        match code {
            0 => Some(DisputeOutcome::RefundDisputer),
            1 => Some(DisputeOutcome::ReleaseRespondent),
            2 => Some(DisputeOutcome::Split),
            _ => None,
        }
    }
}

/// On-chain dispute record.
pub struct Dispute {
    /// Unique identifier.
    pub id: Symbol,
    /// Party that filed the dispute and locked the tokens.
    pub disputer: Address,
    /// Party being disputed against.
    pub respondent: Address,
    /// Token contract used for the locked amount.
    pub token: Address,
    /// Total amount locked in this contract.
    pub amount: i128,
    /// Current lifecycle phase.
    pub status: DisputeStatus,
    /// Decision once the dispute is decided; until then `RefundDisputer` as a placeholder.
    pub outcome: DisputeOutcome,
    /// Respondent's share in basis points. Only meaningful for `Split`.
    pub split_bps: u32,
    /// Arbitrator address once decided.
    pub arbitrator: Option<Address>,
    /// Unix timestamp when filed.
    pub filed_at: u64,
    /// Unix timestamp when settled (0 until settled).
    pub settled_at: u64,
    /// Off-chain evidence hash submitted by the disputer.
    pub disputer_evidence: Option<soroban_sdk::String>,
    /// Off-chain evidence hash submitted by the respondent.
    pub respondent_evidence: Option<soroban_sdk::String>,
}

impl Clone for Dispute {
    fn clone(&self) -> (copy: Self)
        ensures
            copy == *self,
    {
        Dispute {
            id: self.id.clone(),
            disputer: self.disputer.clone(),
            respondent: self.respondent.clone(),
            token: self.token.clone(),
            amount: self.amount,
            status: self.status,
            outcome: self.outcome,
            split_bps: self.split_bps,
            arbitrator: self.arbitrator.clone(),
            filed_at: self.filed_at,
            settled_at: self.settled_at,
            disputer_evidence: self.disputer_evidence.clone(),
            respondent_evidence: self.respondent_evidence.clone(),
        }
    }
}

/// A dispute as it lies in storage, with its phase and its outcome by their numbers.
pub struct DisputeRecord {
    /// Unique identifier.
    pub id: Symbol,
    /// Party that filed the dispute.
    pub disputer: Address,
    /// Party being disputed against.
    pub respondent: Address,
    /// Token contract.
    pub token: Address,
    /// Locked amount.
    pub amount: i128,
    /// Number of the phase.
    pub status: u32,
    /// Number of the outcome.
    pub outcome: u32,
    /// Respondent's share in basis points.
    pub split_bps: u32,
    /// Arbitrator address once decided.
    pub arbitrator: Option<Address>,
    /// Unix timestamp when filed.
    pub filed_at: u64,
    /// Unix timestamp when settled.
    pub settled_at: u64,
    /// Disputer's evidence hash.
    pub disputer_evidence: Option<soroban_sdk::String>,
    /// Respondent's evidence hash.
    pub respondent_evidence: Option<soroban_sdk::String>,
}

impl DisputeRecord {
    /// The dispute that the record stands for; none if one of its two numbers stands for nothing.
    pub open spec fn decoded(self) -> Option<Dispute> {
        match (DisputeStatus::of_code(self.status), DisputeOutcome::of_code(self.outcome)) {
            (Some(status), Some(outcome)) => Some(
                Dispute {
                    id: self.id,
                    disputer: self.disputer,
                    respondent: self.respondent,
                    token: self.token,
                    amount: self.amount,
                    status,
                    outcome,
                    split_bps: self.split_bps,
                    arbitrator: self.arbitrator,
                    filed_at: self.filed_at,
                    settled_at: self.settled_at,
                    disputer_evidence: self.disputer_evidence,
                    respondent_evidence: self.respondent_evidence,
                },
            ),
            _ => None,
        }
    }

    /// The dispute that the record stands for, if any.
    pub fn decode(self) -> (dispute: Option<Dispute>)
        ensures
            dispute == self.decoded(),
    {
        match (DisputeStatus::from_code(self.status), DisputeOutcome::from_code(self.outcome)) {
            (Some(status), Some(outcome)) => Some(
                Dispute {
                    id: self.id,
                    disputer: self.disputer,
                    respondent: self.respondent,
                    token: self.token,
                    amount: self.amount,
                    status,
                    outcome,
                    split_bps: self.split_bps,
                    arbitrator: self.arbitrator,
                    filed_at: self.filed_at,
                    settled_at: self.settled_at,
                    disputer_evidence: self.disputer_evidence,
                    respondent_evidence: self.respondent_evidence,
                },
            ),
            _ => None,
        }
    }
}

impl Dispute {
    /// The record that stands for the dispute.
    pub open spec fn encoded(self) -> DisputeRecord {
        DisputeRecord {
            id: self.id,
            disputer: self.disputer,
            respondent: self.respondent,
            token: self.token,
            amount: self.amount,
            status: self.status.code_of(),
            outcome: self.outcome.code_of(),
            split_bps: self.split_bps,
            arbitrator: self.arbitrator,
            filed_at: self.filed_at,
            settled_at: self.settled_at,
            disputer_evidence: self.disputer_evidence,
            respondent_evidence: self.respondent_evidence,
        }
    }

    /// The record that stands for the dispute.
    pub fn encode(self) -> (record: DisputeRecord)
        ensures
            record == self.encoded(),
            record.decoded() == Some(self),
    {
        DisputeRecord {
            id: self.id,
            disputer: self.disputer,
            respondent: self.respondent,
            token: self.token,
            amount: self.amount,
            status: self.status.code(),
            outcome: self.outcome.code(),
            split_bps: self.split_bps,
            arbitrator: self.arbitrator,
            filed_at: self.filed_at,
            settled_at: self.settled_at,
            disputer_evidence: self.disputer_evidence,
            respondent_evidence: self.respondent_evidence,
        }
    }
}

/// Storage keys.
pub enum DataKey {
    /// Instance storage: admin address.
    Admin,
    /// Instance storage: paused flag.
    Paused,
    /// Persistent storage: approved arbitrators.
    Arbitrators,
    /// Persistent storage: dispute record keyed by id.
    Dispute(Symbol),
    /// Persistent storage: ordered list of all dispute ids.
    DisputeList,
}

/// Why the contract refuses an invocation.
#[derive(Clone, Copy, PartialEq, Eq, Debug, Structural)]
pub enum DisputeError {
    /// `initialize` was called before.
    AlreadyInitialized,
    /// `initialize` was not called yet.
    NotInitialized,
    /// The caller is not the admin.
    NotAuthorized,
    /// The admin has paused the contract.
    Paused,
    /// A dispute locks more than nothing.
    AmountNotPositive,
    /// The id is taken.
    DuplicateDispute,
    /// No dispute has the id.
    DisputeNotFound,
    /// Evidence comes from the two parties only.
    NotAParty,
    /// Evidence comes before the decision only.
    EvidenceClosed,
    /// Decisions come from approved arbitrators only.
    NotAnArbitrator,
    /// A split gives the respondent more than the whole.
    SplitOutOfRange,
    /// The dispute is decided already.
    NotDecidable,
    /// Settlement follows a decision, once.
    NotDecided,
    /// A share of the locked amount does not fit.
    SplitOverflow,
    /// No contract stands at the token's address, or it refused a transfer.
    TransferFailed,
}

impl DisputeError {
    /// The text of the refusal.
    pub open spec fn text(self) -> Seq<char> {
        match self {
            DisputeError::AlreadyInitialized => "Already initialized"@,
            DisputeError::NotInitialized => "Not initialized"@,
            DisputeError::NotAuthorized => "Not authorized"@,
            DisputeError::Paused => "Contract is paused"@,
            DisputeError::AmountNotPositive => "Amount must be positive"@,
            DisputeError::DuplicateDispute => "Dispute id already exists"@,
            DisputeError::DisputeNotFound => "Dispute not found"@,
            DisputeError::NotAParty => "Not a party"@,
            DisputeError::EvidenceClosed => "Dispute not open or in evidence phase"@,
            DisputeError::NotAnArbitrator => "Not an arbitrator"@,
            DisputeError::SplitOutOfRange => "split_bps out of range"@,
            DisputeError::NotDecidable => "Not decidable"@,
            DisputeError::NotDecided => "Not decided yet"@,
            DisputeError::SplitOverflow => "Split overflow"@,
            DisputeError::TransferFailed => "Token transfer failed"@,
        }
    }

    /// The text of the refusal.
    pub fn message(self) -> (text: &'static str)
        ensures
            text@ == self.text(),
    {
        match self {
            DisputeError::AlreadyInitialized => "Already initialized",
            DisputeError::NotInitialized => "Not initialized",
            DisputeError::NotAuthorized => "Not authorized",
            DisputeError::Paused => "Contract is paused",
            DisputeError::AmountNotPositive => "Amount must be positive",
            DisputeError::DuplicateDispute => "Dispute id already exists",
            DisputeError::DisputeNotFound => "Dispute not found",
            DisputeError::NotAParty => "Not a party",
            DisputeError::EvidenceClosed => "Dispute not open or in evidence phase",
            DisputeError::NotAnArbitrator => "Not an arbitrator",
            DisputeError::SplitOutOfRange => "split_bps out of range",
            DisputeError::NotDecidable => "Not decidable",
            DisputeError::NotDecided => "Not decided yet",
            DisputeError::SplitOverflow => "Split overflow",
            DisputeError::TransferFailed => "Token transfer failed",
        }
    }
}

/// What the contract's storage holds.
pub ghost struct Storage {
    /// Under `DataKey::Admin`.
    pub admin: Option<Address>,
    /// Under `DataKey::Paused`.
    pub paused: Option<bool>,
    /// Under `DataKey::Arbitrators`.
    pub arbitrators: Option<Seq<Address>>,
    /// Under `DataKey::Dispute(id)`, for each id.
    pub disputes: Map<Symbol, DisputeRecord>,
    /// Under `DataKey::DisputeList`.
    pub dispute_ids: Option<Seq<Symbol>>,
}

impl Storage {
    /// Whether the contract is paused; it is not unless the flag says so.
    pub open spec fn is_paused(self) -> bool {
        self.paused == Some(true)
    }

    /// The approved arbitrators; none unless a list is stored.
    pub open spec fn arbitrator_list(self) -> Seq<Address> {
        match self.arbitrators {
            Some(list) => list,
            None => Seq::empty(),
        }
    }

    /// The ids of all disputes; none unless a list is stored.
    pub open spec fn id_list(self) -> Seq<Symbol> {
        match self.dispute_ids {
            Some(list) => list,
            None => Seq::empty(),
        }
    }

    /// The dispute stored under an id.
    pub open spec fn dispute(self, id: Symbol) -> Option<Dispute> {
        if self.disputes.contains_key(id) {
            self.disputes[id].decoded()
        } else {
            None
        }
    }

    /// The storage with the flag set.
    pub open spec fn with_paused(self, paused: bool) -> Storage {
        Storage { paused: Some(paused), ..self }
    }

    /// The storage with the list of arbitrators replaced.
    pub open spec fn with_arbitrators(self, list: Seq<Address>) -> Storage {
        Storage { arbitrators: Some(list), ..self }
    }

    /// The storage with a dispute written under an id.
    pub open spec fn with_dispute(self, id: Symbol, dispute: Dispute) -> Storage {
        Storage { disputes: self.disputes.insert(id, dispute.encoded()), ..self }
    }

    /// The storage with an id appended to the list of all ids.
    pub open spec fn with_listed(self, id: Symbol) -> Storage {
        Storage { dispute_ids: Some(self.id_list().push(id)), ..self }
    }
}

/// A topic of a published event.
pub ghost enum Topic {
    /// The event's name.
    Name(Seq<char>),
    /// A dispute's id.
    Id(Symbol),
    /// An account.
    Account(Address),
}

/// The data of a published event.
pub ghost enum Payload {
    /// No data.
    Nothing,
    /// An account.
    Account(Address),
    /// The respondent and the amount of a filed dispute.
    Claim(Address, i128),
    /// The number of an outcome and the respondent's share in basis points.
    Ruling(u32, u32),
    /// The number of an outcome and the amount that was locked.
    Payout(u32, i128),
}

/// A request made of the host, with the host's reply where the reply is not
/// determined by what is stored.
pub ghost enum HostCall {
    /// The address must have authorised the invocation. Had it not, nothing would follow.
    RequireAuth(Address),
    /// Is anything stored under the key?
    Has(DataKey),
    /// What is stored under the key?
    Read(DataKey),
    /// Store under the key.
    Write(DataKey),
    /// Keep what is stored under the key alive: threshold, then target, in ledgers.
    ExtendTtl(DataKey, u32, u32),
    /// What is the time? With the reply.
    Clock(u64),
    /// Does a contract stand at the address? With the reply.
    IsContract(Address, bool),
    /// Have the token contract move an amount. With whether it reported that it did.
    Transfer { token: Address, from: Address, to: Address, amount: i128, done: bool },
    /// Publish an event.
    Publish(Seq<Topic>, Payload),
    /// Replace the contract's code.
    UpdateCode(BytesN<32>),
}

} // verus!
