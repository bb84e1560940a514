//! What holds of the market's views as a whole.

use soroban_sdk::{Env, Symbol};
use vstd::prelude::*;

use crate::batch::{
    batches_add_up, batches_are_no_longer_than_their_lists, batches_of_one_are_single_queries,
    complete_batches_keep_the_order,
};
use crate::ledger::{looked_up, Lookup};
use crate::market::types::{DataKey, Escrow};
use crate::market::views::{
    active, arbitration_at, config_at, escrow_at, escrow_reads, expired, multisig_at, summaries_of,
    summary_at, summary_of, with_arbitration,
};

verus! {

/// No two keys point to the same place in the ledger.
pub proof fn keys_do_not_collide(a: DataKey, b: DataKey)
    requires
        a.place() == b.place(),
    ensures
        a == b,
{
    reveal_strlit("Escrow");
    reveal_strlit("MultiSigEscrow");
    reveal_strlit("Arbitration");
    assert("Escrow"@.len() == 6);
    assert("MultiSigEscrow"@.len() == 14);
    assert("Arbitration"@.len() == 11);
}

/// Looking things up changes nothing: whatever was looked up in between, every
/// view finds what it would have found before.
pub proof fn views_change_nothing(pre: Env, post: Env, made: Seq<Lookup>, id: Symbol)
    requires
        looked_up(pre, post, made),
    ensures
        config_at(post) == config_at(pre),
        escrow_at(post, id) == escrow_at(pre, id),
        multisig_at(post, id) == multisig_at(pre, id),
        arbitration_at(post, id) == arbitration_at(pre, id),
{
}

/// An escrow with its arbitration takes two reads, whether or not there is an
/// escrow, and no key is read twice.
pub proof fn composite_views_take_two_reads(first: DataKey, id: Symbol)
    requires
        first != DataKey::Arbitration(id),
    ensures
        with_arbitration(first, id).len() == 2,
        with_arbitration(first, id).no_duplicates(),
{
    if first.place() == DataKey::Arbitration(id).place() {
        keys_do_not_collide(first, DataKey::Arbitration(id));
    }
}

/// An escrow expires once: from its expiry on it has expired, and not before.
pub proof fn escrows_expire_once(escrow: Escrow, earlier: u64, later: u64)
    requires
        earlier <= later,
    ensures
        expired(escrow, earlier) ==> expired(escrow, later),
        expired(escrow, escrow.expiry),
        later < escrow.expiry ==> !expired(escrow, later),
{
}

/// A released escrow and a cancelled one are not active; any other one is.
pub proof fn escrows_are_active_until_released_or_cancelled(escrow: Escrow)
    ensures
        active(escrow) <==> !(escrow.released || escrow.cancelled),
{
}

/// A batch of summaries is the single lookups, one after the other: it can be
/// cut anywhere, and what it reads is cut there too.
pub proof fn summary_batches_add_up(env: Env, first: Seq<Symbol>, second: Seq<Symbol>)
    ensures
        summaries_of(env, first + second) == summaries_of(env, first) + summaries_of(env, second),
        escrow_reads(first + second) == escrow_reads(first) + escrow_reads(second),
{
    batches_add_up(first, second, |id: Symbol| summary_at(env, id));
    assert(escrow_reads(first + second) =~= escrow_reads(first) + escrow_reads(second));
}

/// A batch of one id gives the summary of its escrow, or nothing.
pub proof fn summary_batches_of_one_are_single_lookups(env: Env, id: Symbol)
    ensures
        summaries_of(env, seq![id]) == (match escrow_at(env, id) {
            Some(escrow) => seq![summary_of(id, escrow)],
            None => Seq::empty(),
        }),
{
    batches_of_one_are_single_queries(id, |id: Symbol| summary_at(env, id));
}

/// A batch reads once for each id, whether or not there is an escrow, and gives
/// at most as many summaries.
pub proof fn summary_batches_read_once_for_each_id(env: Env, ids: Seq<Symbol>)
    ensures
        escrow_reads(ids).len() == ids.len(),
        summaries_of(env, ids).len() <= ids.len(),
        ids.no_duplicates() ==> escrow_reads(ids).no_duplicates(),
{
    batches_are_no_longer_than_their_lists(ids, |id: Symbol| summary_at(env, id));
}

/// Where all ids have escrows, the summaries come in the order of the ids.
pub proof fn complete_summary_batches_keep_the_order(env: Env, ids: Seq<Symbol>)
    requires
        forall|i: int| 0 <= i < ids.len() ==> escrow_at(env, #[trigger] ids[i]) is Some,
    ensures
        summaries_of(env, ids).len() == ids.len(),
        forall|i: int|
            0 <= i < ids.len() ==> #[trigger] summaries_of(env, ids)[i] == summary_of(
                ids[i],
                escrow_at(env, ids[i])->0,
            ),
{
    let find = |id: Symbol| summary_at(env, id);
    assert forall|i: int| 0 <= i < ids.len() implies find(#[trigger] ids[i]) is Some by {
        assert(escrow_at(env, ids[i]) is Some);
    }
    complete_batches_keep_the_order(ids, find);
    assert forall|i: int| 0 <= i < ids.len() implies #[trigger] summaries_of(env, ids)[i]
        == summary_of(ids[i], escrow_at(env, ids[i])->0) by {
        assert(escrow_at(env, ids[i]) is Some);
    }
}

} // verus!
