//! Views of workers that read the storage as little as possible.
//!
//! A view loads a record once and answers everything else from memory. Each
//! function states which keys it looks up, in order: that is its storage cost.
//!
//! | Helper                                     | Storage reads                  |
//! |--------------------------------------------|--------------------------------|
//! | `CachedWorkerView::load`                   | 1                              |
//! | `get_worker_profile_cached`                | 2                              |
//! | `get_worker_with_stake_cached`             | 2                              |
//! | `get_worker_with_availability_cached`      | 2                              |
//! | `get_worker_with_reputation_inputs_cached` | 2                              |
//! | `get_worker_with_metrics_cached`           | 2                              |
//! | `get_worker_summary_batch`                 | 1 for each id                  |
//! | `get_category_verification_cached`         | 2, or 1 for an absent category |
//! | `get_location_verification_cached`         | 2, or 1 without worker         |
//! | `get_worker_count_cached`                  | 1                              |

use soroban_sdk::{Address, BytesN, Env, Symbol};
use vstd::prelude::*;

use crate::ledger::{
    entries, has_entry_of, looked_up, lookups, number_at, read_number, read_number_of,
    read_record_of, read_record_of_pair, record_at, Lookup,
};
use crate::registry::types::{
    AvailabilityStatus, CategoryVerification, DataKey, LocationVerification, PerformanceMetrics,
    ReputationInputs, StakeInfo, SubscriptionTier, VerificationLevel, Worker, WorkerSubscription,
};
use crate::sdk::{has_symbol, symbol_at, symbol_count, symbol_items, symbol_text, symbols_among};

verus! {

/// The worker stored under an id.
pub open spec fn worker_at(env: Env, id: Symbol) -> Option<Worker> {
    match record_at(env, DataKey::Worker(id).place()) {
        Some(record) => Worker::of_record(record),
        None => None,
    }
}

/// The verification level stored under an id; a worker for whom no number is
/// stored is not verified.
pub open spec fn verification_level_at(env: Env, id: Symbol) -> VerificationLevel {
    match number_at(env, DataKey::VerificationLevel(id).place()) {
        Some(code) => VerificationLevel::of_code(code),
        None => VerificationLevel::Unverified,
    }
}

/// The stake stored under an id.
pub open spec fn stake_at(env: Env, id: Symbol) -> Option<StakeInfo> {
    match record_at(env, DataKey::StakeInfo(id).place()) {
        Some(record) => StakeInfo::of_record(record),
        None => None,
    }
}

/// The availability stored under an id.
pub open spec fn availability_at(env: Env, id: Symbol) -> Option<AvailabilityStatus> {
    match record_at(env, DataKey::AvailabilityStatus(id).place()) {
        Some(record) => AvailabilityStatus::of_record(record),
        None => None,
    }
}

/// The reputation inputs stored under an id.
pub open spec fn reputation_inputs_at(env: Env, id: Symbol) -> Option<ReputationInputs> {
    match record_at(env, DataKey::ReputationInputs(id).place()) {
        Some(record) => ReputationInputs::of_record(record),
        None => None,
    }
}

/// The performance metrics stored under an id.
pub open spec fn metrics_at(env: Env, id: Symbol) -> Option<PerformanceMetrics> {
    match record_at(env, DataKey::PerformanceMetrics(id).place()) {
        Some(record) => PerformanceMetrics::of_record(record),
        None => None,
    }
}

/// The location verification stored under an id.
pub open spec fn location_verification_at(env: Env, id: Symbol) -> Option<LocationVerification> {
    match record_at(env, DataKey::LocationVerification(id).place()) {
        Some(record) => LocationVerification::of_record(record),
        None => None,
    }
}

/// The verification for a category stored under an id.
pub open spec fn category_verification_at(env: Env, id: Symbol, category: Symbol) -> Option<
    CategoryVerification,
> {
    match record_at(env, DataKey::CategoryVerification(id, category).place()) {
        Some(record) => CategoryVerification::of_record(record),
        None => None,
    }
}

/// The number of workers that is stored; none unless a number is.
pub open spec fn worker_count_at(env: Env) -> u32 {
    match number_at(env, DataKey::WorkerCount.place()) {
        Some(count) => count,
        None => 0,
    }
}

/// One read of a key.
pub open spec fn reading(key: DataKey) -> Lookup {
    Lookup::Read(key.place())
}

/// The lookups for a worker and one more record of theirs.
pub open spec fn worker_and(id: Symbol, second: DataKey) -> Seq<Lookup> {
    seq![reading(DataKey::Worker(id)), reading(second)]
}

/// The names of the keys can all be symbols.
proof fn key_names_are_symbols()
    ensures
        symbol_text("Worker"@),
        symbol_text("VerificationLevel"@),
        symbol_text("StakeInfo"@),
        symbol_text("AvailabilityStatus"@),
        symbol_text("ReputationInputs"@),
        symbol_text("PerformanceMetrics"@),
        symbol_text("CategoryVerification"@),
        symbol_text("LocationVerification"@),
        symbol_text("WorkerCount"@),
{
    reveal_strlit("Worker");
    reveal_strlit("VerificationLevel");
    reveal_strlit("StakeInfo");
    reveal_strlit("AvailabilityStatus");
    reveal_strlit("ReputationInputs");
    reveal_strlit("PerformanceMetrics");
    reveal_strlit("CategoryVerification");
    reveal_strlit("LocationVerification");
    reveal_strlit("WorkerCount");
}

/// The worker stored under an id. Reads once.
fn find_worker(env: &mut Env, id: &Symbol) -> (worker: Option<Worker>)
    ensures
        looked_up(*old(env), *final(env), seq![reading(DataKey::Worker(*id))]),
        worker == worker_at(*old(env), *id),
{
    proof {
        key_names_are_symbols();
    }
    match read_record_of(env, "Worker", id) {
        Some(record) => Worker::from_record(&record),
        None => None,
    }
}

/// A worker who was read from storage once.
///
/// All field accesses are in memory.
pub struct CachedWorkerView {
    worker: Worker,
}

impl View for CachedWorkerView {
    type V = Worker;

    closed spec fn view(&self) -> Worker {
        self.worker
    }
}

/// Whether a subscription that ends at `expires_at` is active at the time `now`.
pub open spec fn subscribed(expires_at: u64, now: u64) -> bool {
    expires_at == 0 || now < expires_at
}

impl CachedWorkerView {
    /// Load a worker from storage. Reads once.
    pub fn load(env: &mut Env, id: Symbol) -> (view: Option<Self>)
        ensures
            looked_up(*old(env), *final(env), seq![reading(DataKey::Worker(id))]),
            match view {
                Some(view) => worker_at(*old(env), id) == Some(view@),
                None => worker_at(*old(env), id) is None,
            },
    {
        match find_worker(env, &id) {
            Some(worker) => Some(CachedWorkerView { worker }),
            None => None,
        }
    }

    /// The worker's unique identifier.
    pub fn id(&self) -> (id: &Symbol)
        ensures
            *id == self@.id,
    {
        &self.worker.id
    }

    /// The worker's owner address.
    pub fn owner(&self) -> (owner: &Address)
        ensures
            *owner == self@.owner,
    {
        &self.worker.owner
    }

    /// The worker's wallet address.
    pub fn wallet(&self) -> (wallet: &Address)
        ensures
            *wallet == self@.wallet,
    {
        &self.worker.wallet
    }

    /// The worker's location hash.
    pub fn location_hash(&self) -> (location_hash: &BytesN<32>)
        ensures
            *location_hash == self@.location_hash,
    {
        &self.worker.location_hash
    }

    /// The worker's contact hash.
    pub fn contact_hash(&self) -> (contact_hash: &BytesN<32>)
        ensures
            *contact_hash == self@.contact_hash,
    {
        &self.worker.contact_hash
    }

    /// Whether the worker is currently active.
    pub fn is_active(&self) -> (active: bool)
        ensures
            active == self@.is_active,
    {
        self.worker.is_active
    }

    /// Reputation score in basis points (0 to 10 000).
    pub fn reputation(&self) -> (reputation: u32)
        ensures
            reputation == self@.reputation,
    {
        self.worker.reputation
    }

    /// Total number of reviews.
    pub fn review_count(&self) -> (review_count: u32)
        ensures
            review_count == self@.review_count,
    {
        self.worker.review_count
    }

    /// Average rating in basis points (0 to 10 000).
    pub fn avg_rating(&self) -> (avg_rating: u32)
        ensures
            avg_rating == self@.avg_rating,
    {
        self.worker.avg_rating
    }

    /// Total staked amount.
    pub fn staked_amount(&self) -> (staked_amount: i128)
        ensures
            staked_amount == self@.staked_amount,
    {
        self.worker.staked_amount
    }

    /// Current subscription tier.
    pub fn subscription_tier(&self) -> (tier: SubscriptionTier)
        ensures
            tier == self@.subscription.tier,
    {
        self.worker.subscription.tier
    }

    /// Subscription expiry timestamp (0 = no expiry).
    pub fn subscription_expires_at(&self) -> (expires_at: u64)
        ensures
            expires_at == self@.subscription.expires_at,
    {
        self.worker.subscription.expires_at
    }

    /// Whether the subscription is active (not expired) at the time `now`.
    pub fn subscription_is_active(&self, now: u64) -> (active: bool)
        ensures
            active == subscribed(self@.subscription.expires_at, now),
    {
        let expires_at: u64 = self.worker.subscription.expires_at;
        expires_at == 0 || expires_at > now
    }

    /// Subscription struct.
    pub fn subscription(&self) -> (subscription: &WorkerSubscription)
        ensures
            *subscription == self@.subscription,
    {
        &self.worker.subscription
    }

    /// Consume the view and return the underlying `Worker`.
    pub fn into_worker(self) -> (worker: Worker)
        ensures
            worker == self@,
    {
        self.worker
    }

    /// Borrow the underlying `Worker`.
    pub fn worker(&self) -> (worker: &Worker)
        ensures
            *worker == self@,
    {
        &self.worker
    }
}

/// A worker along with their verification level.
pub struct WorkerProfileCached {
    /// Core worker record.
    pub worker: Worker,
    /// Verification level (`Unverified` if unset).
    pub verification_level: VerificationLevel,
}

impl Clone for WorkerProfileCached {
    fn clone(&self) -> (copy: Self)
        ensures
            copy == *self,
    {
        WorkerProfileCached {
            worker: self.worker.clone(),
            verification_level: self.verification_level,
        }
    }
}

/// Return a worker's core profile. Reads twice.
pub fn get_worker_profile_cached(env: &mut Env, id: Symbol) -> (profile: Option<
    WorkerProfileCached,
>)
    ensures
        looked_up(*old(env), *final(env), worker_and(id, DataKey::VerificationLevel(id))),
        profile == (match worker_at(*old(env), id) {
            Some(worker) => Some(
                WorkerProfileCached {
                    worker,
                    verification_level: verification_level_at(*old(env), id),
                },
            ),
            None => None,
        }),
{
    let loaded = find_worker(env, &id);
    proof {
        key_names_are_symbols();
    }
    let verification_level = match read_number_of(env, "VerificationLevel", &id) {
        Some(code) => VerificationLevel::from_code(code),
        None => VerificationLevel::Unverified,
    };
    assert(lookups(*env) =~= lookups(*old(env)) + worker_and(id, DataKey::VerificationLevel(id)));
    match loaded {
        Some(worker) => Some(WorkerProfileCached { worker, verification_level }),
        None => None,
    }
}

/// Return a worker and their stake. Reads twice.
pub fn get_worker_with_stake_cached(env: &mut Env, id: Symbol) -> (found: Option<
    (Worker, Option<StakeInfo>),
>)
    ensures
        looked_up(*old(env), *final(env), worker_and(id, DataKey::StakeInfo(id))),
        found == (match worker_at(*old(env), id) {
            Some(worker) => Some((worker, stake_at(*old(env), id))),
            None => None,
        }),
{
    let loaded = find_worker(env, &id);
    proof {
        key_names_are_symbols();
    }
    let stake = match read_record_of(env, "StakeInfo", &id) {
        Some(record) => StakeInfo::from_record(&record),
        None => None,
    };
    assert(lookups(*env) =~= lookups(*old(env)) + worker_and(id, DataKey::StakeInfo(id)));
    match loaded {
        Some(worker) => Some((worker, stake)),
        None => None,
    }
}

/// Return a worker and their current availability. Reads twice.
pub fn get_worker_with_availability_cached(env: &mut Env, id: Symbol) -> (found: Option<
    (Worker, Option<AvailabilityStatus>),
>)
    ensures
        looked_up(*old(env), *final(env), worker_and(id, DataKey::AvailabilityStatus(id))),
        found == (match worker_at(*old(env), id) {
            Some(worker) => Some((worker, availability_at(*old(env), id))),
            None => None,
        }),
{
    let loaded = find_worker(env, &id);
    proof {
        key_names_are_symbols();
    }
    let availability = match read_record_of(env, "AvailabilityStatus", &id) {
        Some(record) => AvailabilityStatus::from_record(&record),
        None => None,
    };
    assert(lookups(*env) =~= lookups(*old(env)) + worker_and(id, DataKey::AvailabilityStatus(id)));
    match loaded {
        Some(worker) => Some((worker, availability)),
        None => None,
    }
}

/// Return a worker and their raw reputation inputs. Reads twice.
pub fn get_worker_with_reputation_inputs_cached(env: &mut Env, id: Symbol) -> (found: Option<
    (Worker, Option<ReputationInputs>),
>)
    ensures
        looked_up(*old(env), *final(env), worker_and(id, DataKey::ReputationInputs(id))),
        found == (match worker_at(*old(env), id) {
            Some(worker) => Some((worker, reputation_inputs_at(*old(env), id))),
            None => None,
        }),
{
    let loaded = find_worker(env, &id);
    proof {
        key_names_are_symbols();
    }
    let inputs = match read_record_of(env, "ReputationInputs", &id) {
        Some(record) => ReputationInputs::from_record(&record),
        None => None,
    };
    assert(lookups(*env) =~= lookups(*old(env)) + worker_and(id, DataKey::ReputationInputs(id)));
    match loaded {
        Some(worker) => Some((worker, inputs)),
        None => None,
    }
}

/// A reputation summary of a single worker.
pub struct WorkerReputationSummary {
    /// Worker identifier.
    pub id: Symbol,
    /// Reputation score in basis points.
    pub reputation: u32,
    /// Average rating in basis points.
    pub avg_rating: u32,
    /// Total review count.
    pub review_count: u32,
    /// Whether the worker is active.
    pub is_active: bool,
    /// Current subscription tier.
    pub subscription_tier: SubscriptionTier,
}

impl Clone for WorkerReputationSummary {
    fn clone(&self) -> (copy: Self)
        ensures
            copy == *self,
    {
        WorkerReputationSummary {
            id: self.id.clone(),
            reputation: self.reputation,
            avg_rating: self.avg_rating,
            review_count: self.review_count,
            is_active: self.is_active,
            subscription_tier: self.subscription_tier,
        }
    }
}

/// The summary of a worker.
pub open spec fn summary_of(worker: Worker) -> WorkerReputationSummary {
    WorkerReputationSummary {
        id: worker.id,
        reputation: worker.reputation,
        avg_rating: worker.avg_rating,
        review_count: worker.review_count,
        is_active: worker.is_active,
        subscription_tier: worker.subscription.tier,
    }
}

/// The summary of what is stored under an id, if a worker is.
pub open spec fn summary_at(env: Env, id: Symbol) -> Option<WorkerReputationSummary> {
    match worker_at(env, id) {
        Some(worker) => Some(summary_of(worker)),
        None => None,
    }
}

/// The summaries of the ids under which workers are stored, in order.
pub open spec fn summaries_of(env: Env, ids: Seq<Symbol>) -> Seq<WorkerReputationSummary> {
    ids.filter_map(|id: Symbol| summary_at(env, id))
}

/// One read for each id, in order.
pub open spec fn worker_reads(ids: Seq<Symbol>) -> Seq<Lookup> {
    ids.map_values(|id: Symbol| reading(DataKey::Worker(id)))
}

/// Return reputation summaries for a list of worker ids. Missing workers are
/// skipped. Reads once for each id. An item of the list that is no symbol is no
/// id: it is skipped without a read.
pub fn get_worker_summary_batch(env: &mut Env, ids: soroban_sdk::Vec<Symbol>) -> (summaries: Vec<
    WorkerReputationSummary,
>)
    ensures
        looked_up(*old(env), *final(env), worker_reads(symbols_among(symbol_items(ids)))),
        summaries@ == summaries_of(*old(env), symbols_among(symbol_items(ids))),
{
    let ghost items = symbol_items(ids);
    let mut summaries: Vec<WorkerReputationSummary> = Vec::new();
    let count: u32 = symbol_count(&ids);
    let mut index: u32 = 0;
    assert(lookups(*env) =~= lookups(*env) + worker_reads(symbols_among(items.take(0))));
    while index < count
        invariant
            index <= count,
            count == items.len(),
            items == symbol_items(ids),
            looked_up(*old(env), *env, worker_reads(symbols_among(items.take(index as int)))),
            summaries@ == summaries_of(*old(env), symbols_among(items.take(index as int))),
        decreases count - index,
    {
        let ghost start = *env;
        let ghost before = symbols_among(items.take(index as int));
        let ghost after = symbols_among(items.take(index + 1));
        assert(items.take(index + 1).drop_last() =~= items.take(index as int));
        if let Some(id) = symbol_at(&ids, index) {
            let found = find_worker(env, &id);
            proof {
                assert(worker_at(start, id) == worker_at(*old(env), id));
                assert(after =~= before.push(id));
                assert(after.drop_last() =~= before);
                assert(worker_reads(after) =~= worker_reads(before) + seq![
                    reading(DataKey::Worker(id)),
                ]);
                assert(lookups(*env) =~= lookups(*old(env)) + worker_reads(after));
            }
            if let Some(worker) = found {
                summaries.push(
                    WorkerReputationSummary {
                        id: worker.id,
                        reputation: worker.reputation,
                        avg_rating: worker.avg_rating,
                        review_count: worker.review_count,
                        is_active: worker.is_active,
                        subscription_tier: worker.subscription.tier,
                    },
                );
            }
            assert(summaries@ =~= summaries_of(*old(env), after));
        }
        index = index + 1;
    }
    assert(items.take(index as int) =~= items);
    summaries
}

/// Whether a worker is verified for a category, by their own record.
pub open spec fn lists_category(worker: Option<Worker>, category: Symbol) -> bool {
    match worker {
        Some(worker) => symbol_items(worker.verified_categories).contains(Some(category)),
        None => false,
    }
}

/// The lookups of `get_category_verification_cached`.
pub open spec fn category_lookups(env: Env, id: Symbol, category: Symbol) -> Seq<Lookup> {
    if lists_category(worker_at(env, id), category) {
        seq![
            reading(DataKey::Worker(id)),
            reading(DataKey::CategoryVerification(id, category)),
        ]
    } else {
        seq![reading(DataKey::Worker(id))]
    }
}

/// Return a worker's verification for a category.
///
/// The worker's record says for which categories they are verified. The detail
/// is read only if the category is one of these: otherwise one read is enough.
pub fn get_category_verification_cached(env: &mut Env, worker_id: Symbol, category: Symbol) -> (found:
    Option<CategoryVerification>)
    ensures
        looked_up(*old(env), *final(env), category_lookups(*old(env), worker_id, category)),
        found == (if lists_category(worker_at(*old(env), worker_id), category) {
            category_verification_at(*old(env), worker_id, category)
        } else {
            None
        }),
{
    let worker = match find_worker(env, &worker_id) {
        Some(worker) => worker,
        None => return None,
    };
    if !has_symbol(&worker.verified_categories, &category) {
        return None;
    }
    proof {
        key_names_are_symbols();
    }
    let found = match read_record_of_pair(env, "CategoryVerification", &worker_id, &category) {
        Some(record) => CategoryVerification::from_record(&record),
        None => None,
    };
    assert(lookups(*env) =~= lookups(*old(env)) + category_lookups(*old(env), worker_id, category));
    found
}

/// Whether anything is stored as a worker under an id.
pub open spec fn worker_exists(env: Env, id: Symbol) -> bool {
    entries(env).contains_key(DataKey::Worker(id).place())
}

/// The lookups of `get_location_verification_cached`.
pub open spec fn location_lookups(env: Env, id: Symbol) -> Seq<Lookup> {
    if worker_exists(env, id) {
        seq![
            Lookup::Has(DataKey::Worker(id).place()),
            reading(DataKey::LocationVerification(id)),
        ]
    } else {
        seq![Lookup::Has(DataKey::Worker(id).place())]
    }
}

/// Return a worker's location verification.
///
/// The worker's record is only asked after, not read. Where there is none, one
/// lookup is enough.
pub fn get_location_verification_cached(env: &mut Env, worker_id: Symbol) -> (found: Option<
    LocationVerification,
>)
    ensures
        looked_up(*old(env), *final(env), location_lookups(*old(env), worker_id)),
        found == (if worker_exists(*old(env), worker_id) {
            location_verification_at(*old(env), worker_id)
        } else {
            None
        }),
{
    proof {
        key_names_are_symbols();
    }
    if !has_entry_of(env, "Worker", &worker_id) {
        return None;
    }
    let found = match read_record_of(env, "LocationVerification", &worker_id) {
        Some(record) => LocationVerification::from_record(&record),
        None => None,
    };
    assert(lookups(*env) =~= lookups(*old(env)) + location_lookups(*old(env), worker_id));
    found
}

/// Return a worker and their performance metrics. Reads twice.
pub fn get_worker_with_metrics_cached(env: &mut Env, id: Symbol) -> (found: Option<
    (Worker, Option<PerformanceMetrics>),
>)
    ensures
        looked_up(*old(env), *final(env), worker_and(id, DataKey::PerformanceMetrics(id))),
        found == (match worker_at(*old(env), id) {
            Some(worker) => Some((worker, metrics_at(*old(env), id))),
            None => None,
        }),
{
    let loaded = find_worker(env, &id);
    proof {
        key_names_are_symbols();
    }
    let metrics = match read_record_of(env, "PerformanceMetrics", &id) {
        Some(record) => PerformanceMetrics::from_record(&record),
        None => None,
    };
    assert(lookups(*env) =~= lookups(*old(env)) + worker_and(id, DataKey::PerformanceMetrics(id)));
    match loaded {
        Some(worker) => Some((worker, metrics)),
        None => None,
    }
}

/// Return the total worker count. Reads once.
pub fn get_worker_count_cached(env: &mut Env) -> (count: u32)
    ensures
        looked_up(*old(env), *final(env), seq![reading(DataKey::WorkerCount)]),
        count == worker_count_at(*old(env)),
{
    proof {
        key_names_are_symbols();
    }
    match read_number(env, "WorkerCount") {
        Some(count) => count,
        None => 0,
    }
}

} // verus!
