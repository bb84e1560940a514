//! Facts about batch queries: a list of ids in, what is found for them out.

use vstd::prelude::*;

verus! {

/// A batch of two lists is the batch of the one and then of the other.
pub proof fn batches_add_up<A, B>(first: Seq<A>, second: Seq<A>, find: spec_fn(A) -> Option<B>)
    ensures
        (first + second).filter_map(find) == first.filter_map(find) + second.filter_map(find),
    decreases second.len(),
{
    if second.len() == 0 {
        assert(first + second =~= first);
        assert(first.filter_map(find) + second.filter_map(find) =~= first.filter_map(find));
    } else {
        let rest = second.drop_last();
        assert((first + second).drop_last() =~= first + rest);
        batches_add_up(first, rest, find);
        assert((first + second).filter_map(find) =~= first.filter_map(find) + second.filter_map(
            find,
        ));
    }
}

/// A batch of one id is what is found for it.
pub proof fn batches_of_one_are_single_queries<A, B>(id: A, find: spec_fn(A) -> Option<B>)
    ensures
        seq![id].filter_map(find) == (match find(id) {
            Some(found) => seq![found],
            None => Seq::empty(),
        }),
{
    reveal_with_fuel(Seq::filter_map, 2);
    assert(seq![id].drop_last() =~= Seq::<A>::empty());
    assert(seq![id].filter_map(find) =~= (match find(id) {
        Some(found) => seq![found],
        None => Seq::empty(),
    }));
}

/// A batch finds at most one thing for each id.
pub proof fn batches_are_no_longer_than_their_lists<A, B>(
    ids: Seq<A>,
    find: spec_fn(A) -> Option<B>,
)
    ensures
        ids.filter_map(find).len() <= ids.len(),
    decreases ids.len(),
{
    if ids.len() > 0 {
        batches_are_no_longer_than_their_lists(ids.drop_last(), find);
    }
}

/// Where something is found for every id, the batch holds it in the order of the ids.
pub proof fn complete_batches_keep_the_order<A, B>(ids: Seq<A>, find: spec_fn(A) -> Option<B>)
    requires
        forall|i: int| 0 <= i < ids.len() ==> find(#[trigger] ids[i]) is Some,
    ensures
        ids.filter_map(find) == ids.map_values(|id: A| find(id)->0),
    decreases ids.len(),
{
    let wanted = ids.map_values(|id: A| find(id)->0);
    if ids.len() == 0 {
        assert(ids.filter_map(find) =~= wanted);
    } else {
        let rest = ids.drop_last();
        assert forall|i: int| 0 <= i < rest.len() implies find(#[trigger] rest[i]) is Some by {
            assert(rest[i] == ids[i]);
        }
        complete_batches_keep_the_order(rest, find);
        assert(find(ids[ids.len() - 1]) is Some);
        assert(rest.map_values(|id: A| find(id)->0) =~= wanted.drop_last());
        assert(ids.filter_map(find) =~= wanted);
    }
}

} // verus!
