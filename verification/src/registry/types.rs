//! The records of the registry and the keys they are stored under.

use soroban_sdk::{Address, BytesN, Symbol};
use vstd::prelude::*;

use crate::ledger::LedgerKey;
use crate::sdk::{
    address_field, address_in, flag_field, flag_in, hash_field, hash_in, i128_field, i128_in,
    record_field, record_in, symbol_field, symbol_in, symbol_text, symbols_field, symbols_in,
    u32_field, u32_in, u64_field, u64_in, Record,
};

verus! {

/// A worker's subscription tier.
///
/// That a tier is stored as a number, and as which, is this library's own
/// assumption: 0 stands for `Free`. A tier that is stored otherwise is `Unknown`.
#[derive(Clone, Copy, PartialEq, Eq, Debug, Structural)]
pub enum SubscriptionTier {
    /// The tier that every worker starts with.
    Free,
    /// A paid tier, by its number.
    Paid(u32),
    /// A tier that is not stored as a number.
    Unknown,
}

impl SubscriptionTier {
    /// The tier that a number stands for in storage.
    pub open spec fn of_code(code: u32) -> SubscriptionTier {
        if code == 0 {
            SubscriptionTier::Free
        } else {
            SubscriptionTier::Paid(code)
        }
    }

    /// The tier that a number stands for in storage.
    pub fn from_code(code: u32) -> (tier: SubscriptionTier)
        ensures
            tier == SubscriptionTier::of_code(code),
    {
        if code == 0 {
            SubscriptionTier::Free
        } else {
            SubscriptionTier::Paid(code)
        }
    }
}

/// How far a worker has been verified.
///
/// That a level is stored as a number, and as which, is this library's own
/// assumption: 0, 1 and 2 stand for `Unverified`, `Verified` and `Expert`.
#[derive(Clone, Copy, PartialEq, Eq, Debug, Structural)]
pub enum VerificationLevel {
    /// Not verified.
    Unverified,
    /// Verified.
    Verified,
    /// Verified as an expert.
    Expert,
    /// A further level, by its number.
    Other(u32),
}

impl VerificationLevel {
    /// The level that a number stands for in storage.
    pub open spec fn of_code(code: u32) -> VerificationLevel {
        if code == 0 {
            VerificationLevel::Unverified
        } else if code == 1 {
            VerificationLevel::Verified
        } else if code == 2 {
            VerificationLevel::Expert
        } else {
            VerificationLevel::Other(code)
        }
    }

    /// The level that a number stands for in storage.
    pub fn from_code(code: u32) -> (level: VerificationLevel)
        ensures
            level == VerificationLevel::of_code(code),
    {
        match code {
            0 => VerificationLevel::Unverified,
            1 => VerificationLevel::Verified,
            2 => VerificationLevel::Expert,
            _ => VerificationLevel::Other(code),
        }
    }
}

/// A worker's subscription.
pub struct WorkerSubscription {
    /// The tier.
    pub tier: SubscriptionTier,
    /// When it runs out (0 = never).
    pub expires_at: u64,
    /// The whole record, with the fields that no view reads.
    pub record: Record,
}

impl Clone for WorkerSubscription {
    fn clone(&self) -> (copy: Self)
        ensures
            copy == *self,
    {
        WorkerSubscription {
            tier: self.tier,
            expires_at: self.expires_at,
            record: self.record.clone(),
        }
    }
}

impl WorkerSubscription {
    /// The subscription that a record stands for; none if it has no expiry.
    pub open spec fn of_record(record: Record) -> Option<WorkerSubscription> {
        if u64_in(record, "expires_at"@) is Some {
            Some(WorkerSubscription {
                tier: tier_in(record),
                expires_at: u64_in(record, "expires_at"@)->0,
                record,
            })
        } else {
            None
        }
    }

    /// The subscription that a record stands for, if any.
    pub fn from_record(record: &Record) -> (found: Option<WorkerSubscription>)
        ensures
            found == WorkerSubscription::of_record(*record),
    {
        proof {
            field_names_are_symbols();
        }
        let tier = match u32_field(record, "tier") {
            Some(code) => SubscriptionTier::from_code(code),
            None => SubscriptionTier::Unknown,
        };
        let expires_at: u64 = match u64_field(record, "expires_at") {
            Some(value) => value,
            None => return None,
        };
        Some(WorkerSubscription { tier, expires_at, record: record.clone() })
    }
}

/// The tier that a subscription's record holds.
pub open spec fn tier_in(record: Record) -> SubscriptionTier {
    match u32_in(record, "tier"@) {
        Some(code) => SubscriptionTier::of_code(code),
        None => SubscriptionTier::Unknown,
    }
}

/// A registered worker.
pub struct Worker {
    /// Unique identifier.
    pub id: Symbol,
    /// The address that owns the entry.
    pub owner: Address,
    /// The address that is paid.
    pub wallet: Address,
    /// Hash of the location.
    pub location_hash: BytesN<32>,
    /// Hash of the contact data.
    pub contact_hash: BytesN<32>,
    /// Whether the worker is active.
    pub is_active: bool,
    /// Reputation score in basis points.
    pub reputation: u32,
    /// Number of reviews.
    pub review_count: u32,
    /// Average rating in basis points.
    pub avg_rating: u32,
    /// Total staked amount.
    pub staked_amount: i128,
    /// The subscription.
    pub subscription: WorkerSubscription,
    /// The categories that the worker is verified for.
    pub verified_categories: soroban_sdk::Vec<Symbol>,
    /// The whole record, with the fields that no view reads.
    pub record: Record,
}

impl Clone for Worker {
    fn clone(&self) -> (copy: Self)
        ensures
            copy == *self,
    {
        Worker {
            id: self.id.clone(),
            owner: self.owner.clone(),
            wallet: self.wallet.clone(),
            location_hash: self.location_hash.clone(),
            contact_hash: self.contact_hash.clone(),
            is_active: self.is_active,
            reputation: self.reputation,
            review_count: self.review_count,
            avg_rating: self.avg_rating,
            staked_amount: self.staked_amount,
            subscription: self.subscription.clone(),
            verified_categories: self.verified_categories.clone(),
            record: self.record.clone(),
        }
    }
}

impl Worker {
    /// The worker that a record stands for; none if a field is missing or of another kind.
    pub open spec fn of_record(record: Record) -> Option<Worker> {
        if symbol_in(record, "id"@) is Some
            && address_in(record, "owner"@) is Some
            && address_in(record, "wallet"@) is Some
            && hash_in(record, "location_hash"@) is Some
            && hash_in(record, "contact_hash"@) is Some
            && flag_in(record, "is_active"@) is Some
            && u32_in(record, "reputation"@) is Some
            && u32_in(record, "review_count"@) is Some
            && u32_in(record, "avg_rating"@) is Some
            && i128_in(record, "staked_amount"@) is Some
            && subscription_in(record) is Some
            && symbols_in(record, "verified_categories"@) is Some {
            Some(Worker {
                id: symbol_in(record, "id"@)->0,
                owner: address_in(record, "owner"@)->0,
                wallet: address_in(record, "wallet"@)->0,
                location_hash: hash_in(record, "location_hash"@)->0,
                contact_hash: hash_in(record, "contact_hash"@)->0,
                is_active: flag_in(record, "is_active"@)->0,
                reputation: u32_in(record, "reputation"@)->0,
                review_count: u32_in(record, "review_count"@)->0,
                avg_rating: u32_in(record, "avg_rating"@)->0,
                staked_amount: i128_in(record, "staked_amount"@)->0,
                subscription: subscription_in(record)->0,
                verified_categories: symbols_in(record, "verified_categories"@)->0,
                record,
            })
        } else {
            None
        }
    }

    /// The worker that a record stands for, if any.
    pub fn from_record(record: &Record) -> (found: Option<Worker>)
        ensures
            found == Worker::of_record(*record),
    {
        proof {
            field_names_are_symbols();
        }
        let id = match symbol_field(record, "id") {
            Some(value) => value,
            None => return None,
        };
        let owner = match address_field(record, "owner") {
            Some(value) => value,
            None => return None,
        };
        let wallet = match address_field(record, "wallet") {
            Some(value) => value,
            None => return None,
        };
        let location_hash = match hash_field(record, "location_hash") {
            Some(value) => value,
            None => return None,
        };
        let contact_hash = match hash_field(record, "contact_hash") {
            Some(value) => value,
            None => return None,
        };
        let is_active = match flag_field(record, "is_active") {
            Some(value) => value,
            None => return None,
        };
        let reputation: u32 = match u32_field(record, "reputation") {
            Some(value) => value,
            None => return None,
        };
        let review_count: u32 = match u32_field(record, "review_count") {
            Some(value) => value,
            None => return None,
        };
        let avg_rating: u32 = match u32_field(record, "avg_rating") {
            Some(value) => value,
            None => return None,
        };
        let staked_amount: i128 = match i128_field(record, "staked_amount") {
            Some(value) => value,
            None => return None,
        };
        let subscription = match subscription_field(record) {
            Some(value) => value,
            None => return None,
        };
        let verified_categories = match symbols_field(record, "verified_categories") {
            Some(value) => value,
            None => return None,
        };
        Some(
            Worker {
                id,
                owner,
                wallet,
                location_hash,
                contact_hash,
                is_active,
                reputation,
                review_count,
                avg_rating,
                staked_amount,
                subscription,
                verified_categories,
                record: record.clone(),
            },
        )
    }
}

/// The subscription that a worker's record holds.
pub open spec fn subscription_in(record: Record) -> Option<WorkerSubscription> {
    match record_in(record, "subscription"@) {
        Some(inner) => WorkerSubscription::of_record(inner),
        None => None,
    }
}

/// The subscription that a worker's record holds.
fn subscription_field(record: &Record) -> (found: Option<WorkerSubscription>)
    ensures
        found == subscription_in(*record),
{
    proof {
        field_names_are_symbols();
    }
    match record_field(record, "subscription") {
        Some(inner) => WorkerSubscription::from_record(&inner),
        None => None,
    }
}

/// What a worker has staked.
pub struct StakeInfo {
    /// The staked amount.
    pub amount: i128,
    /// The whole record, with the fields that no view reads.
    pub record: Record,
}

impl Clone for StakeInfo {
    fn clone(&self) -> (copy: Self)
        ensures
            copy == *self,
    {
        StakeInfo {
            amount: self.amount,
            record: self.record.clone(),
        }
    }
}

impl StakeInfo {
    /// The stake that a record stands for; none if a field is missing or of another kind.
    pub open spec fn of_record(record: Record) -> Option<StakeInfo> {
        if i128_in(record, "amount"@) is Some {
            Some(StakeInfo {
                amount: i128_in(record, "amount"@)->0,
                record,
            })
        } else {
            None
        }
    }

    /// The stake that a record stands for, if any.
    pub fn from_record(record: &Record) -> (found: Option<StakeInfo>)
        ensures
            found == StakeInfo::of_record(*record),
    {
        proof {
            field_names_are_symbols();
        }
        let amount: i128 = match i128_field(record, "amount") {
            Some(value) => value,
            None => return None,
        };
        Some(StakeInfo { amount, record: record.clone() })
    }
}

/// Whether a worker takes jobs.
pub struct AvailabilityStatus {
    /// Whether the worker is available.
    pub is_available: bool,
    /// The whole record, with the fields that no view reads.
    pub record: Record,
}

impl Clone for AvailabilityStatus {
    fn clone(&self) -> (copy: Self)
        ensures
            copy == *self,
    {
        AvailabilityStatus {
            is_available: self.is_available,
            record: self.record.clone(),
        }
    }
}

impl AvailabilityStatus {
    /// The availability that a record stands for; none if a field is missing or of another kind.
    pub open spec fn of_record(record: Record) -> Option<AvailabilityStatus> {
        if flag_in(record, "is_available"@) is Some {
            Some(AvailabilityStatus {
                is_available: flag_in(record, "is_available"@)->0,
                record,
            })
        } else {
            None
        }
    }

    /// The availability that a record stands for, if any.
    pub fn from_record(record: &Record) -> (found: Option<AvailabilityStatus>)
        ensures
            found == AvailabilityStatus::of_record(*record),
    {
        proof {
            field_names_are_symbols();
        }
        let is_available = match flag_field(record, "is_available") {
            Some(value) => value,
            None => return None,
        };
        Some(AvailabilityStatus { is_available, record: record.clone() })
    }
}

/// What a reputation is computed from.
pub struct ReputationInputs {
    /// Number of ratings.
    pub rating_count: u32,
    /// Sum of the ratings, in basis points.
    pub rating_sum: u64,
    /// The whole record, with the fields that no view reads.
    pub record: Record,
}

impl Clone for ReputationInputs {
    fn clone(&self) -> (copy: Self)
        ensures
            copy == *self,
    {
        ReputationInputs {
            rating_count: self.rating_count,
            rating_sum: self.rating_sum,
            record: self.record.clone(),
        }
    }
}

impl ReputationInputs {
    /// The inputs that a record stands for; none if a field is missing or of another kind.
    pub open spec fn of_record(record: Record) -> Option<ReputationInputs> {
        if u32_in(record, "rating_count"@) is Some
            && u64_in(record, "rating_sum"@) is Some {
            Some(ReputationInputs {
                rating_count: u32_in(record, "rating_count"@)->0,
                rating_sum: u64_in(record, "rating_sum"@)->0,
                record,
            })
        } else {
            None
        }
    }

    /// The inputs that a record stands for, if any.
    pub fn from_record(record: &Record) -> (found: Option<ReputationInputs>)
        ensures
            found == ReputationInputs::of_record(*record),
    {
        proof {
            field_names_are_symbols();
        }
        let rating_count: u32 = match u32_field(record, "rating_count") {
            Some(value) => value,
            None => return None,
        };
        let rating_sum: u64 = match u64_field(record, "rating_sum") {
            Some(value) => value,
            None => return None,
        };
        Some(ReputationInputs { rating_count, rating_sum, record: record.clone() })
    }
}

/// What a worker has achieved.
pub struct PerformanceMetrics {
    /// Number of completed jobs.
    pub jobs_completed: u32,
    /// The whole record, with the fields that no view reads.
    pub record: Record,
}

impl Clone for PerformanceMetrics {
    fn clone(&self) -> (copy: Self)
        ensures
            copy == *self,
    {
        PerformanceMetrics {
            jobs_completed: self.jobs_completed,
            record: self.record.clone(),
        }
    }
}

impl PerformanceMetrics {
    /// The metrics that a record stands for; none if a field is missing or of another kind.
    pub open spec fn of_record(record: Record) -> Option<PerformanceMetrics> {
        if u32_in(record, "jobs_completed"@) is Some {
            Some(PerformanceMetrics {
                jobs_completed: u32_in(record, "jobs_completed"@)->0,
                record,
            })
        } else {
            None
        }
    }

    /// The metrics that a record stands for, if any.
    pub fn from_record(record: &Record) -> (found: Option<PerformanceMetrics>)
        ensures
            found == PerformanceMetrics::of_record(*record),
    {
        proof {
            field_names_are_symbols();
        }
        let jobs_completed: u32 = match u32_field(record, "jobs_completed") {
            Some(value) => value,
            None => return None,
        };
        Some(PerformanceMetrics { jobs_completed, record: record.clone() })
    }
}

/// The verification of a worker for a category.
pub struct CategoryVerification {
    /// When it runs out.
    pub expires_at: u64,
    /// The whole record, with the fields that no view reads.
    pub record: Record,
}

impl Clone for CategoryVerification {
    fn clone(&self) -> (copy: Self)
        ensures
            copy == *self,
    {
        CategoryVerification {
            expires_at: self.expires_at,
            record: self.record.clone(),
        }
    }
}

impl CategoryVerification {
    /// The verification that a record stands for; none if a field is missing or of another kind.
    pub open spec fn of_record(record: Record) -> Option<CategoryVerification> {
        if u64_in(record, "expires_at"@) is Some {
            Some(CategoryVerification {
                expires_at: u64_in(record, "expires_at"@)->0,
                record,
            })
        } else {
            None
        }
    }

    /// The verification that a record stands for, if any.
    pub fn from_record(record: &Record) -> (found: Option<CategoryVerification>)
        ensures
            found == CategoryVerification::of_record(*record),
    {
        proof {
            field_names_are_symbols();
        }
        let expires_at: u64 = match u64_field(record, "expires_at") {
            Some(value) => value,
            None => return None,
        };
        Some(CategoryVerification { expires_at, record: record.clone() })
    }
}

/// The verification of a worker's location.
pub struct LocationVerification {
    /// When it runs out.
    pub expires_at: u64,
    /// The whole record, with the fields that no view reads.
    pub record: Record,
}

impl Clone for LocationVerification {
    fn clone(&self) -> (copy: Self)
        ensures
            copy == *self,
    {
        LocationVerification {
            expires_at: self.expires_at,
            record: self.record.clone(),
        }
    }
}

impl LocationVerification {
    /// The verification that a record stands for; none if a field is missing or of another kind.
    pub open spec fn of_record(record: Record) -> Option<LocationVerification> {
        if u64_in(record, "expires_at"@) is Some {
            Some(LocationVerification {
                expires_at: u64_in(record, "expires_at"@)->0,
                record,
            })
        } else {
            None
        }
    }

    /// The verification that a record stands for, if any.
    pub fn from_record(record: &Record) -> (found: Option<LocationVerification>)
        ensures
            found == LocationVerification::of_record(*record),
    {
        proof {
            field_names_are_symbols();
        }
        let expires_at: u64 = match u64_field(record, "expires_at") {
            Some(value) => value,
            None => return None,
        };
        Some(LocationVerification { expires_at, record: record.clone() })
    }
}

/// The names of the fields can all be symbols.
proof fn field_names_are_symbols()
    ensures
        symbol_text("id"@),
        symbol_text("owner"@),
        symbol_text("wallet"@),
        symbol_text("location_hash"@),
        symbol_text("contact_hash"@),
        symbol_text("is_active"@),
        symbol_text("reputation"@),
        symbol_text("review_count"@),
        symbol_text("avg_rating"@),
        symbol_text("staked_amount"@),
        symbol_text("subscription"@),
        symbol_text("verified_categories"@),
        symbol_text("tier"@),
        symbol_text("expires_at"@),
        symbol_text("amount"@),
        symbol_text("is_available"@),
        symbol_text("rating_count"@),
        symbol_text("rating_sum"@),
        symbol_text("jobs_completed"@),
{
    reveal_strlit("id");
    reveal_strlit("owner");
    reveal_strlit("wallet");
    reveal_strlit("location_hash");
    reveal_strlit("contact_hash");
    reveal_strlit("is_active");
    reveal_strlit("reputation");
    reveal_strlit("review_count");
    reveal_strlit("avg_rating");
    reveal_strlit("staked_amount");
    reveal_strlit("subscription");
    reveal_strlit("verified_categories");
    reveal_strlit("tier");
    reveal_strlit("expires_at");
    reveal_strlit("amount");
    reveal_strlit("is_available");
    reveal_strlit("rating_count");
    reveal_strlit("rating_sum");
    reveal_strlit("jobs_completed");
}

/// Storage keys of the registry.
pub ghost enum DataKey {
    /// A worker by id.
    Worker(Symbol),
    /// A worker's verification level.
    VerificationLevel(Symbol),
    /// A worker's stake.
    StakeInfo(Symbol),
    /// A worker's availability.
    AvailabilityStatus(Symbol),
    /// A worker's reputation inputs.
    ReputationInputs(Symbol),
    /// A worker's performance metrics.
    PerformanceMetrics(Symbol),
    /// A worker's verification for a category.
    CategoryVerification(Symbol, Symbol),
    /// A worker's location verification.
    LocationVerification(Symbol),
    /// The number of workers.
    WorkerCount,
}

impl DataKey {
    /// Where in the ledger the key points.
    pub open spec fn place(self) -> LedgerKey {
        match self {
            DataKey::Worker(id) => LedgerKey::EntryOf("Worker"@, id),
            DataKey::VerificationLevel(id) => LedgerKey::EntryOf("VerificationLevel"@, id),
            DataKey::StakeInfo(id) => LedgerKey::EntryOf("StakeInfo"@, id),
            DataKey::AvailabilityStatus(id) => LedgerKey::EntryOf("AvailabilityStatus"@, id),
            DataKey::ReputationInputs(id) => LedgerKey::EntryOf("ReputationInputs"@, id),
            DataKey::PerformanceMetrics(id) => LedgerKey::EntryOf("PerformanceMetrics"@, id),
            DataKey::CategoryVerification(id, category) => LedgerKey::EntryOfPair(
                "CategoryVerification"@,
                id,
                category,
            ),
            DataKey::LocationVerification(id) => LedgerKey::EntryOf("LocationVerification"@, id),
            DataKey::WorkerCount => LedgerKey::Entry("WorkerCount"@),
        }
    }
}

} // verus!
