//! What holds of the registry's views as a whole.

use soroban_sdk::{Env, Symbol};
use vstd::prelude::*;

use crate::batch::{
    batches_add_up, batches_are_no_longer_than_their_lists, batches_of_one_are_single_queries,
    complete_batches_keep_the_order,
};
use crate::ledger::{looked_up, Lookup};
use crate::registry::types::DataKey;
use crate::registry::views::{
    availability_at, category_lookups, category_verification_at, lists_category, location_lookups,
    location_verification_at, metrics_at, reading, reputation_inputs_at, stake_at, subscribed,
    summaries_of, summary_at, summary_of, verification_level_at, worker_and, worker_at,
    worker_count_at, worker_exists, worker_reads,
};

verus! {

/// No two keys point to the same place in the ledger.
pub proof fn keys_do_not_collide(a: DataKey, b: DataKey)
    requires
        a.place() == b.place(),
    ensures
        a == b,
{
    reveal_strlit("Worker");
    reveal_strlit("VerificationLevel");
    reveal_strlit("StakeInfo");
    reveal_strlit("AvailabilityStatus");
    reveal_strlit("ReputationInputs");
    reveal_strlit("PerformanceMetrics");
    reveal_strlit("LocationVerification");
    assert("AvailabilityStatus"@[0] != "PerformanceMetrics"@[0]);
    assert("Worker"@.len() == 6);
    assert("VerificationLevel"@.len() == 17);
    assert("StakeInfo"@.len() == 9);
    assert("AvailabilityStatus"@.len() == 18);
    assert("ReputationInputs"@.len() == 16);
    assert("PerformanceMetrics"@.len() == 18);
    assert("LocationVerification"@.len() == 20);
}

/// Looking things up changes nothing: whatever was looked up in between, every
/// view finds what it would have found before.
pub proof fn views_change_nothing(
    pre: Env,
    post: Env,
    made: Seq<Lookup>,
    id: Symbol,
    category: Symbol,
)
    requires
        looked_up(pre, post, made),
    ensures
        worker_at(post, id) == worker_at(pre, id),
        worker_exists(post, id) == worker_exists(pre, id),
        verification_level_at(post, id) == verification_level_at(pre, id),
        stake_at(post, id) == stake_at(pre, id),
        availability_at(post, id) == availability_at(pre, id),
        reputation_inputs_at(post, id) == reputation_inputs_at(pre, id),
        metrics_at(post, id) == metrics_at(pre, id),
        category_verification_at(post, id, category) == category_verification_at(
            pre,
            id,
            category,
        ),
        location_verification_at(post, id) == location_verification_at(pre, id),
        worker_count_at(post) == worker_count_at(pre),
{
}

/// A worker with one more record takes two reads, whether or not there is a
/// worker, and no key is read twice.
pub proof fn composite_views_take_two_reads(id: Symbol, second: DataKey)
    requires
        second != DataKey::Worker(id),
    ensures
        worker_and(id, second).len() == 2,
        worker_and(id, second).no_duplicates(),
{
    if second.place() == DataKey::Worker(id).place() {
        keys_do_not_collide(second, DataKey::Worker(id));
    }
}

/// A category that the worker is not listed for takes one read, a listed one
/// takes two, of different keys.
pub proof fn category_views_read_the_detail_of_listed_categories(
    env: Env,
    id: Symbol,
    category: Symbol,
)
    ensures
        category_lookups(env, id, category).len() == (if lists_category(
            worker_at(env, id),
            category,
        ) {
            2int
        } else {
            1
        }),
        category_lookups(env, id, category).no_duplicates(),
{
}

/// Whoever can be read as a worker is found to exist.
pub proof fn readable_workers_exist(env: Env, id: Symbol)
    ensures
        worker_at(env, id) is Some ==> worker_exists(env, id),
{
}

/// A location verification takes one lookup without a worker and two with one,
/// and the worker's record is never read for it.
pub proof fn location_views_never_read_the_worker(env: Env, id: Symbol)
    ensures
        location_lookups(env, id).len() == (if worker_exists(env, id) {
            2int
        } else {
            1
        }),
        !location_lookups(env, id).contains(reading(DataKey::Worker(id))),
{
    if DataKey::LocationVerification(id).place() == DataKey::Worker(id).place() {
        keys_do_not_collide(DataKey::LocationVerification(id), DataKey::Worker(id));
    }
}

/// A subscription without expiry never ends. Another one is active until it
/// expires and not afterwards, so one that is active was active before.
pub proof fn subscriptions_end_once(expires_at: u64, earlier: u64, later: u64)
    requires
        earlier <= later,
    ensures
        subscribed(0, later),
        subscribed(expires_at, later) ==> subscribed(expires_at, earlier),
        expires_at != 0 ==> !subscribed(expires_at, expires_at),
        earlier < expires_at ==> subscribed(expires_at, earlier),
{
}

/// A batch of summaries is the single lookups, one after the other: it can be
/// cut anywhere, and what it reads is cut there too.
pub proof fn summary_batches_add_up(env: Env, first: Seq<Symbol>, second: Seq<Symbol>)
    ensures
        summaries_of(env, first + second) == summaries_of(env, first) + summaries_of(env, second),
        worker_reads(first + second) == worker_reads(first) + worker_reads(second),
{
    batches_add_up(first, second, |id: Symbol| summary_at(env, id));
    assert(worker_reads(first + second) =~= worker_reads(first) + worker_reads(second));
}

/// A batch of one id gives the summary of its worker, or nothing.
pub proof fn summary_batches_of_one_are_single_lookups(env: Env, id: Symbol)
    ensures
        summaries_of(env, seq![id]) == (match worker_at(env, id) {
            Some(worker) => seq![summary_of(worker)],
            None => Seq::empty(),
        }),
{
    batches_of_one_are_single_queries(id, |id: Symbol| summary_at(env, id));
}

/// A batch reads once for each id, whether or not there is a worker, and gives
/// at most as many summaries.
pub proof fn summary_batches_read_once_for_each_id(env: Env, ids: Seq<Symbol>)
    ensures
        worker_reads(ids).len() == ids.len(),
        summaries_of(env, ids).len() <= ids.len(),
        ids.no_duplicates() ==> worker_reads(ids).no_duplicates(),
{
    batches_are_no_longer_than_their_lists(ids, |id: Symbol| summary_at(env, id));
}

/// Where all ids have workers, the summaries come in the order of the ids.
pub proof fn complete_summary_batches_keep_the_order(env: Env, ids: Seq<Symbol>)
    requires
        forall|i: int| 0 <= i < ids.len() ==> worker_at(env, #[trigger] ids[i]) is Some,
    ensures
        summaries_of(env, ids).len() == ids.len(),
        forall|i: int|
            0 <= i < ids.len() ==> #[trigger] summaries_of(env, ids)[i] == summary_of(
                worker_at(env, ids[i])->0,
            ),
{
    let find = |id: Symbol| summary_at(env, id);
    assert forall|i: int| 0 <= i < ids.len() implies find(#[trigger] ids[i]) is Some by {
        assert(worker_at(env, ids[i]) is Some);
    }
    complete_batches_keep_the_order(ids, find);
    assert forall|i: int| 0 <= i < ids.len() implies #[trigger] summaries_of(env, ids)[i]
        == summary_of(worker_at(env, ids[i])->0) by {
        assert(worker_at(env, ids[i]) is Some);
    }
}

} // verus!
