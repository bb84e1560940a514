//! What the registry's views answer, on the entries of the ledger.
//!
//! The laws speak of any call of a view, and of nothing but its arguments, its
//! result, what the entries hold and the lookups it made.

use soroban_sdk::{Address, BytesN, Env, Symbol};
use vstd::prelude::*;

use crate::ledger::{entries, lookups, number_in_value, record_in_value, LedgerKey, Lookup};
use crate::registry::types::{
    AvailabilityStatus, CategoryVerification, LocationVerification, PerformanceMetrics,
    ReputationInputs, StakeInfo, SubscriptionTier, VerificationLevel, Worker, WorkerSubscription,
};
use crate::registry::views::{
    get_category_verification_cached, get_location_verification_cached, get_worker_count_cached,
    get_worker_profile_cached, get_worker_summary_batch, get_worker_with_availability_cached,
    get_worker_with_metrics_cached, get_worker_with_reputation_inputs_cached,
    get_worker_with_stake_cached, summary_at, worker_reads, CachedWorkerView, WorkerProfileCached,
    WorkerReputationSummary,
};
use crate::sdk::{
    address_in, batches_find_what_is_there, flag_in, hash_in, i128_in, record_in, symbol_in,
    symbol_items, symbols_among, symbols_among_are_the_symbols, symbols_in, u32_in, u64_in, Record,
};

verus! {

/// The record that an entry holds.
pub open spec fn record_under(env: Env, key: LedgerKey) -> Option<Record> {
    if entries(env).contains_key(key) {
        record_in_value(entries(env)[key])
    } else {
        None
    }
}

/// The record that a worker's entry holds.
pub open spec fn worker_record(env: Env, id: Symbol) -> Option<Record> {
    record_under(env, LedgerKey::EntryOf("Worker"@, id))
}

/// Whether a record has all that makes a worker.
pub open spec fn is_worker(record: Record) -> bool {
    &&& symbol_in(record, "id"@) is Some
    &&& address_in(record, "owner"@) is Some
    &&& address_in(record, "wallet"@) is Some
    &&& hash_in(record, "location_hash"@) is Some
    &&& hash_in(record, "contact_hash"@) is Some
    &&& flag_in(record, "is_active"@) is Some
    &&& u32_in(record, "reputation"@) is Some
    &&& u32_in(record, "review_count"@) is Some
    &&& u32_in(record, "avg_rating"@) is Some
    &&& i128_in(record, "staked_amount"@) is Some
    &&& symbols_in(record, "verified_categories"@) is Some
    &&& record_in(record, "subscription"@) is Some
    &&& u64_in(record_in(record, "subscription"@)->0, "expires_at"@) is Some
}

/// Whether a worker is stored under an id.
pub open spec fn has_worker(env: Env, id: Symbol) -> bool {
    worker_record(env, id) is Some && is_worker(worker_record(env, id)->0)
}

/// Whether a tier is the one that a subscription's record holds: none of a
/// number unless a number is stored, and the free one for 0.
pub open spec fn is_tier(tier: SubscriptionTier, subscription: Record) -> bool {
    let stored = u32_in(subscription, "tier"@);
    &&& tier == SubscriptionTier::Unknown <==> stored is None
    &&& tier == SubscriptionTier::Free <==> stored == Some(0u32)
    &&& stored matches Some(number) ==> number > 0 ==> tier == SubscriptionTier::Paid(number)
}

/// Whether a subscription is what its record says, field by field.
pub open spec fn is_subscription(subscription: WorkerSubscription, record: Record) -> bool {
    &&& is_tier(subscription.tier, record)
    &&& u64_in(record, "expires_at"@) == Some(subscription.expires_at)
    &&& subscription.record == record
}

/// Whether a worker is what their record says, field by field.
pub open spec fn is_as_recorded(worker: Worker, record: Record) -> bool {
    &&& symbol_in(record, "id"@) == Some(worker.id)
    &&& address_in(record, "owner"@) == Some(worker.owner)
    &&& address_in(record, "wallet"@) == Some(worker.wallet)
    &&& hash_in(record, "location_hash"@) == Some(worker.location_hash)
    &&& hash_in(record, "contact_hash"@) == Some(worker.contact_hash)
    &&& flag_in(record, "is_active"@) == Some(worker.is_active)
    &&& u32_in(record, "reputation"@) == Some(worker.reputation)
    &&& u32_in(record, "review_count"@) == Some(worker.review_count)
    &&& u32_in(record, "avg_rating"@) == Some(worker.avg_rating)
    &&& i128_in(record, "staked_amount"@) == Some(worker.staked_amount)
    &&& symbols_in(record, "verified_categories"@) == Some(worker.verified_categories)
    &&& record_in(record, "subscription"@) matches Some(inner) && is_subscription(
        worker.subscription,
        inner,
    )
    &&& worker.record == record
}

/// A view is loaded exactly where a worker is stored, in one read.
pub proof fn views_are_loaded_where_workers_are(
    env: &mut Env,
    id: Symbol,
    view: Option<CachedWorkerView>,
)
    requires
        call_ensures(CachedWorkerView::load, (env, id), view),
    ensures
        view is Some <==> has_worker(*old(env), id),
        entries(*final(env)) == entries(*old(env)),
        lookups(*final(env)) == lookups(*old(env)) + seq![
            Lookup::Read(LedgerKey::EntryOf("Worker"@, id)),
        ],
{
}

/// A loaded view gives of a worker's person what is stored.
pub proof fn loaded_views_know_the_person(
    env: &mut Env,
    worker_id: Symbol,
    view: CachedWorkerView,
    id: &Symbol,
    owner: &Address,
    wallet: &Address,
    location_hash: &BytesN<32>,
    contact_hash: &BytesN<32>,
    borrowed: &Worker,
    owned: Worker,
)
    requires
        call_ensures(CachedWorkerView::load, (env, worker_id), Some(view)),
        call_ensures(CachedWorkerView::id, (&view,), id),
        call_ensures(CachedWorkerView::owner, (&view,), owner),
        call_ensures(CachedWorkerView::wallet, (&view,), wallet),
        call_ensures(CachedWorkerView::location_hash, (&view,), location_hash),
        call_ensures(CachedWorkerView::contact_hash, (&view,), contact_hash),
        call_ensures(CachedWorkerView::worker, (&view,), borrowed),
        call_ensures(CachedWorkerView::into_worker, (view,), owned),
    ensures
        ({
            let record = worker_record(*old(env), worker_id)->0;
            &&& symbol_in(record, "id"@) == Some(*id)
            &&& address_in(record, "owner"@) == Some(*owner)
            &&& address_in(record, "wallet"@) == Some(*wallet)
            &&& hash_in(record, "location_hash"@) == Some(*location_hash)
            &&& hash_in(record, "contact_hash"@) == Some(*contact_hash)
            &&& is_as_recorded(*borrowed, record)
            &&& is_as_recorded(owned, record)
        }),
{
}

/// A loaded view gives of a worker's standing what is stored.
pub proof fn loaded_views_know_the_standing(
    env: &mut Env,
    id: Symbol,
    view: CachedWorkerView,
    is_active: bool,
    reputation: u32,
    review_count: u32,
    avg_rating: u32,
    staked_amount: i128,
)
    requires
        call_ensures(CachedWorkerView::load, (env, id), Some(view)),
        call_ensures(CachedWorkerView::is_active, (&view,), is_active),
        call_ensures(CachedWorkerView::reputation, (&view,), reputation),
        call_ensures(CachedWorkerView::review_count, (&view,), review_count),
        call_ensures(CachedWorkerView::avg_rating, (&view,), avg_rating),
        call_ensures(CachedWorkerView::staked_amount, (&view,), staked_amount),
    ensures
        ({
            let record = worker_record(*old(env), id)->0;
            &&& flag_in(record, "is_active"@) == Some(is_active)
            &&& u32_in(record, "reputation"@) == Some(reputation)
            &&& u32_in(record, "review_count"@) == Some(review_count)
            &&& u32_in(record, "avg_rating"@) == Some(avg_rating)
            &&& i128_in(record, "staked_amount"@) == Some(staked_amount)
        }),
{
}

/// A loaded view gives of a worker's subscription what is stored. It is active
/// for ever without an expiry, and until the expiry otherwise.
pub proof fn loaded_views_know_the_subscription(
    env: &mut Env,
    id: Symbol,
    view: CachedWorkerView,
    tier: SubscriptionTier,
    expires_at: u64,
    subscription: &WorkerSubscription,
    now: u64,
    active: bool,
)
    requires
        call_ensures(CachedWorkerView::load, (env, id), Some(view)),
        call_ensures(CachedWorkerView::subscription_tier, (&view,), tier),
        call_ensures(CachedWorkerView::subscription_expires_at, (&view,), expires_at),
        call_ensures(CachedWorkerView::subscription, (&view,), subscription),
        call_ensures(CachedWorkerView::subscription_is_active, (&view, now), active),
    ensures
        ({
            let inner = record_in(worker_record(*old(env), id)->0, "subscription"@)->0;
            &&& is_tier(tier, inner)
            &&& u64_in(inner, "expires_at"@) == Some(expires_at)
            &&& is_subscription(*subscription, inner)
            &&& active <==> !(expires_at != 0 && expires_at <= now)
        }),
{
}

/// A profile is the stored worker with the stored level, in two reads. Without a
/// level the worker is not verified.
pub proof fn profiles_say_what_is_stored(
    env: &mut Env,
    id: Symbol,
    profile: Option<WorkerProfileCached>,
)
    requires
        call_ensures(get_worker_profile_cached, (env, id), profile),
    ensures
        profile is Some <==> has_worker(*old(env), id),
        profile matches Some(profile) ==> {
            let key = LedgerKey::EntryOf("VerificationLevel"@, id);
            let stored = number_in_value(entries(*old(env))[key]);
            let level = profile.verification_level;
            let has_number = entries(*old(env)).contains_key(key) && stored is Some;
            &&& is_as_recorded(profile.worker, worker_record(*old(env), id)->0)
            &&& !has_number ==> level == VerificationLevel::Unverified
            &&& has_number ==> is_level(level, stored->0)
        },
        entries(*final(env)) == entries(*old(env)),
        lookups(*final(env)) == lookups(*old(env)) + seq![
            Lookup::Read(LedgerKey::EntryOf("Worker"@, id)),
            Lookup::Read(LedgerKey::EntryOf("VerificationLevel"@, id)),
        ],
{
}

/// Whether a level has a number.
pub open spec fn is_level(level: VerificationLevel, number: u32) -> bool {
    &&& level == VerificationLevel::Unverified <==> number == 0
    &&& level == VerificationLevel::Verified <==> number == 1
    &&& level == VerificationLevel::Expert <==> number == 2
    &&& number > 2 ==> level == VerificationLevel::Other(number)
}

/// Levels have their numbers, and of the tiers the free one has 0.
pub proof fn levels_and_tiers_have_numbers(
    number: u32,
    level: VerificationLevel,
    tier: SubscriptionTier,
)
    requires
        call_ensures(VerificationLevel::from_code, (number,), level),
        call_ensures(SubscriptionTier::from_code, (number,), tier),
    ensures
        is_level(level, number),
        number == 0 ==> tier == SubscriptionTier::Free,
        number > 0 ==> tier == SubscriptionTier::Paid(number),
{
}

/// A worker comes with their stake as it is stored, in two reads.
pub proof fn stakes_come_with_their_workers(
    env: &mut Env,
    id: Symbol,
    found: Option<(Worker, Option<StakeInfo>)>,
)
    requires
        call_ensures(get_worker_with_stake_cached, (env, id), found),
    ensures
        found is Some <==> has_worker(*old(env), id),
        found matches Some((worker, second)) ==> {
            let stored = record_under(*old(env), LedgerKey::EntryOf("StakeInfo"@, id));
            &&& is_as_recorded(worker, worker_record(*old(env), id)->0)
            &&& second is Some <==> (stored matches Some(record) && i128_in(record, "amount"@) is Some)
            &&& second matches Some(second) ==> {
                let record = stored->0;
                &&& i128_in(record, "amount"@) == Some(second.amount)
                &&& second.record == record
            }
        },
        entries(*final(env)) == entries(*old(env)),
        lookups(*final(env)) == lookups(*old(env)) + seq![
            Lookup::Read(LedgerKey::EntryOf("Worker"@, id)),
            Lookup::Read(LedgerKey::EntryOf("StakeInfo"@, id)),
        ],
{
}

/// A worker comes with their availability as it is stored, in two reads.
pub proof fn availability_comes_with_its_worker(
    env: &mut Env,
    id: Symbol,
    found: Option<(Worker, Option<AvailabilityStatus>)>,
)
    requires
        call_ensures(get_worker_with_availability_cached, (env, id), found),
    ensures
        found is Some <==> has_worker(*old(env), id),
        found matches Some((worker, second)) ==> {
            let stored = record_under(*old(env), LedgerKey::EntryOf("AvailabilityStatus"@, id));
            &&& is_as_recorded(worker, worker_record(*old(env), id)->0)
            &&& second is Some <==> (stored matches Some(record) && flag_in(record, "is_available"@) is Some)
            &&& second matches Some(second) ==> {
                let record = stored->0;
                &&& flag_in(record, "is_available"@) == Some(second.is_available)
                &&& second.record == record
            }
        },
        entries(*final(env)) == entries(*old(env)),
        lookups(*final(env)) == lookups(*old(env)) + seq![
            Lookup::Read(LedgerKey::EntryOf("Worker"@, id)),
            Lookup::Read(LedgerKey::EntryOf("AvailabilityStatus"@, id)),
        ],
{
}

/// A worker comes with their reputation inputs as they are stored, in two reads.
pub proof fn reputation_inputs_come_with_their_worker(
    env: &mut Env,
    id: Symbol,
    found: Option<(Worker, Option<ReputationInputs>)>,
)
    requires
        call_ensures(get_worker_with_reputation_inputs_cached, (env, id), found),
    ensures
        found is Some <==> has_worker(*old(env), id),
        found matches Some((worker, second)) ==> {
            let stored = record_under(*old(env), LedgerKey::EntryOf("ReputationInputs"@, id));
            &&& is_as_recorded(worker, worker_record(*old(env), id)->0)
            &&& second is Some <==> (stored matches Some(record) && u32_in(record, "rating_count"@) is Some && u64_in(record, "rating_sum"@) is Some)
            &&& second matches Some(second) ==> {
                let record = stored->0;
                &&& u32_in(record, "rating_count"@) == Some(second.rating_count)
                &&& u64_in(record, "rating_sum"@) == Some(second.rating_sum)
                &&& second.record == record
            }
        },
        entries(*final(env)) == entries(*old(env)),
        lookups(*final(env)) == lookups(*old(env)) + seq![
            Lookup::Read(LedgerKey::EntryOf("Worker"@, id)),
            Lookup::Read(LedgerKey::EntryOf("ReputationInputs"@, id)),
        ],
{
}

/// A worker comes with their metrics as they are stored, in two reads.
pub proof fn metrics_come_with_their_worker(
    env: &mut Env,
    id: Symbol,
    found: Option<(Worker, Option<PerformanceMetrics>)>,
)
    requires
        call_ensures(get_worker_with_metrics_cached, (env, id), found),
    ensures
        found is Some <==> has_worker(*old(env), id),
        found matches Some((worker, second)) ==> {
            let stored = record_under(*old(env), LedgerKey::EntryOf("PerformanceMetrics"@, id));
            &&& is_as_recorded(worker, worker_record(*old(env), id)->0)
            &&& second is Some <==> (stored matches Some(record) && u32_in(record, "jobs_completed"@) is Some)
            &&& second matches Some(second) ==> {
                let record = stored->0;
                &&& u32_in(record, "jobs_completed"@) == Some(second.jobs_completed)
                &&& second.record == record
            }
        },
        entries(*final(env)) == entries(*old(env)),
        lookups(*final(env)) == lookups(*old(env)) + seq![
            Lookup::Read(LedgerKey::EntryOf("Worker"@, id)),
            Lookup::Read(LedgerKey::EntryOf("PerformanceMetrics"@, id)),
        ],
{
}

/// A batch gives one summary for each id of the list under which a worker is
/// stored, in the order of the list, and each says what the worker's record says.
/// `there` tells these ids apart.
pub proof fn summaries_say_what_is_stored(
    env: &mut Env,
    ids: soroban_sdk::Vec<Symbol>,
    summaries: Vec<WorkerReputationSummary>,
    there: spec_fn(Option<Symbol>) -> bool,
)
    requires
        call_ensures(get_worker_summary_batch, (env, ids), summaries),
        forall|item: Option<Symbol>| #[trigger]
            there(item) <==> item is Some && has_worker(*old(env), item->0),
    ensures
        summaries@.len() == symbol_items(ids).filter(there).len(),
        forall|i: int|
            0 <= i < summaries@.len() ==> {
                let summary = #[trigger] summaries@[i];
                let record = worker_record(*old(env), symbol_items(ids).filter(there)[i]->0)->0;
                &&& symbol_in(record, "id"@) == Some(summary.id)
                &&& u32_in(record, "reputation"@) == Some(summary.reputation)
                &&& u32_in(record, "avg_rating"@) == Some(summary.avg_rating)
                &&& u32_in(record, "review_count"@) == Some(summary.review_count)
                &&& flag_in(record, "is_active"@) == Some(summary.is_active)
                &&& is_tier(summary.subscription_tier, record_in(record, "subscription"@)->0)
            },
        entries(*final(env)) == entries(*old(env)),
{
    let items = symbol_items(ids);
    let start = *old(env);
    let find = |id: Symbol| summary_at(start, id);
    assert forall|item: Option<Symbol>| #[trigger]
        there(item) <==> item is Some && find(item->0) is Some by {}
    batches_find_what_is_there(items, find, there);
    assert forall|i: int| 0 <= i < summaries@.len() implies ({
        let summary = #[trigger] summaries@[i];
        let record = worker_record(start, items.filter(there)[i]->0)->0;
        &&& symbol_in(record, "id"@) == Some(summary.id)
        &&& u32_in(record, "reputation"@) == Some(summary.reputation)
        &&& u32_in(record, "avg_rating"@) == Some(summary.avg_rating)
        &&& u32_in(record, "review_count"@) == Some(summary.review_count)
        &&& flag_in(record, "is_active"@) == Some(summary.is_active)
        &&& is_tier(summary.subscription_tier, record_in(record, "subscription"@)->0)
    }) by {
        let item = items.filter(there)[i];
        assert(find(item->0) == Some(summaries@[i]));
    }
}

/// A batch reads one record for each id of the list, in the order of the list.
/// `is_symbol` tells the ids apart.
pub proof fn summaries_take_one_read_each(
    env: &mut Env,
    ids: soroban_sdk::Vec<Symbol>,
    summaries: Vec<WorkerReputationSummary>,
    is_symbol: spec_fn(Option<Symbol>) -> bool,
)
    requires
        call_ensures(get_worker_summary_batch, (env, ids), summaries),
        forall|item: Option<Symbol>| #[trigger] is_symbol(item) <==> item is Some,
    ensures
        ({
            let start = lookups(*old(env)).len();
            let asked = symbol_items(ids).filter(is_symbol);
            &&& lookups(*final(env)).len() == start + asked.len()
            &&& forall|i: int|
                0 <= i < asked.len() ==> #[trigger] lookups(*final(env))[start + i]
                    == Lookup::Read(LedgerKey::EntryOf("Worker"@, asked[i]->0))
        }),
{
    let items = symbol_items(ids);
    let start = lookups(*old(env)).len();
    let asked = items.filter(is_symbol);
    symbols_among_are_the_symbols(items, is_symbol);
    assert forall|i: int| 0 <= i < asked.len() implies #[trigger] lookups(*final(env))[start + i]
        == Lookup::Read(LedgerKey::EntryOf("Worker"@, asked[i]->0)) by {
        assert(lookups(*final(env))[start + i] == worker_reads(symbols_among(items))[i]);
        assert(asked[i] == Some(symbols_among(items)[i]));
    }
}

/// A verification for a category is given exactly where the worker is stored,
/// their own record lists the category, and the detail is stored. The detail is
/// read only in a listed category.
pub proof fn category_verifications_need_the_listing(
    env: &mut Env,
    id: Symbol,
    category: Symbol,
    found: Option<CategoryVerification>,
)
    requires
        call_ensures(get_category_verification_cached, (env, id, category), found),
    ensures
        ({
            let worker = worker_record(*old(env), id)->0;
            let listed = has_worker(*old(env), id) && symbol_items(
                symbols_in(worker, "verified_categories"@)->0,
            ).contains(Some(category));
            let key = LedgerKey::EntryOfPair("CategoryVerification"@, id, category);
            let stored = record_under(*old(env), key);
            let first = Lookup::Read(LedgerKey::EntryOf("Worker"@, id));
            let made = lookups(*final(env)).skip(lookups(*old(env)).len() as int);
            &&& found is Some <==> listed && (stored matches Some(record) && u64_in(
                record,
                "expires_at"@,
            ) is Some)
            &&& found matches Some(found) ==> u64_in(stored->0, "expires_at"@) == Some(
                found.expires_at,
            ) && found.record == stored->0
            &&& listed ==> made =~= seq![first, Lookup::Read(key)]
            &&& !listed ==> made =~= seq![first]
            &&& lookups(*final(env)).len() >= lookups(*old(env)).len()
        }),
        entries(*final(env)) == entries(*old(env)),
{
}

/// A location verification is given exactly where anything is stored as the
/// worker and the verification is stored. The worker's entry is asked after and
/// not read, and without one nothing is read.
pub proof fn location_verifications_need_the_worker(
    env: &mut Env,
    id: Symbol,
    found: Option<LocationVerification>,
)
    requires
        call_ensures(get_location_verification_cached, (env, id), found),
    ensures
        ({
            let worker = LedgerKey::EntryOf("Worker"@, id);
            let exists_worker = entries(*old(env)).contains_key(worker);
            let key = LedgerKey::EntryOf("LocationVerification"@, id);
            let stored = record_under(*old(env), key);
            let made = lookups(*final(env)).skip(lookups(*old(env)).len() as int);
            &&& found is Some <==> exists_worker && (stored matches Some(record) && u64_in(
                record,
                "expires_at"@,
            ) is Some)
            &&& found matches Some(found) ==> u64_in(stored->0, "expires_at"@) == Some(
                found.expires_at,
            ) && found.record == stored->0
            &&& exists_worker ==> made =~= seq![Lookup::Has(worker), Lookup::Read(key)]
            &&& !exists_worker ==> made =~= seq![Lookup::Has(worker)]
            &&& lookups(*final(env)).len() >= lookups(*old(env)).len()
        }),
        entries(*final(env)) == entries(*old(env)),
{
}

/// The count is the number that is stored, or 0, in one read.
pub proof fn the_count_is_what_is_stored(env: &mut Env, count: u32)
    requires
        call_ensures(get_worker_count_cached, (env,), count),
    ensures
        ({
            let key = LedgerKey::Entry("WorkerCount"@);
            let stored = number_in_value(entries(*old(env))[key]);
            &&& entries(*old(env)).contains_key(key) && stored is Some ==> stored == Some(count)
            &&& !entries(*old(env)).contains_key(key) || stored is None ==> count == 0
        }),
        entries(*final(env)) == entries(*old(env)),
        lookups(*final(env)) == lookups(*old(env)) + seq![
            Lookup::Read(LedgerKey::Entry("WorkerCount"@)),
        ],
{
}

/// A record makes a worker exactly if it has all that makes one, and the worker
/// is then what the record says.
pub proof fn records_make_workers(
    record: Record,
    worker: Option<Worker>,
    subscription: Option<WorkerSubscription>,
)
    requires
        call_ensures(Worker::from_record, (&record,), worker),
        call_ensures(WorkerSubscription::from_record, (&record,), subscription),
    ensures
        worker is Some <==> is_worker(record),
        worker matches Some(worker) ==> is_as_recorded(worker, record),
        subscription is Some <==> u64_in(record, "expires_at"@) is Some,
        subscription matches Some(subscription) ==> is_subscription(subscription, record),
{
}

/// A record makes a detail of a worker exactly if it has the detail's fields, and
/// the detail is then what the record says.
pub proof fn records_make_details(
    record: Record,
    stake: Option<StakeInfo>,
    availability: Option<AvailabilityStatus>,
    inputs: Option<ReputationInputs>,
    metrics: Option<PerformanceMetrics>,
    category: Option<CategoryVerification>,
    location: Option<LocationVerification>,
)
    requires
        call_ensures(StakeInfo::from_record, (&record,), stake),
        call_ensures(AvailabilityStatus::from_record, (&record,), availability),
        call_ensures(ReputationInputs::from_record, (&record,), inputs),
        call_ensures(PerformanceMetrics::from_record, (&record,), metrics),
        call_ensures(CategoryVerification::from_record, (&record,), category),
        call_ensures(LocationVerification::from_record, (&record,), location),
    ensures
        stake is Some <==> i128_in(record, "amount"@) is Some,
        stake matches Some(found) ==> i128_in(record, "amount"@) == Some(found.amount)
            && found.record == record,
        availability is Some <==> flag_in(record, "is_available"@) is Some,
        availability matches Some(found) ==> flag_in(record, "is_available"@) == Some(
            found.is_available,
        ) && found.record == record,
        inputs is Some <==> u32_in(record, "rating_count"@) is Some && u64_in(
            record,
            "rating_sum"@,
        ) is Some,
        inputs matches Some(found) ==> u32_in(record, "rating_count"@) == Some(found.rating_count)
            && u64_in(record, "rating_sum"@) == Some(found.rating_sum) && found.record == record,
        metrics is Some <==> u32_in(record, "jobs_completed"@) is Some,
        metrics matches Some(found) ==> u32_in(record, "jobs_completed"@) == Some(
            found.jobs_completed,
        ) && found.record == record,
        category is Some <==> u64_in(record, "expires_at"@) is Some,
        category matches Some(found) ==> u64_in(record, "expires_at"@) == Some(found.expires_at)
            && found.record == record,
        location is Some <==> u64_in(record, "expires_at"@) is Some,
        location matches Some(found) ==> u64_in(record, "expires_at"@) == Some(found.expires_at)
            && found.record == record,
{
}

} // verus!
