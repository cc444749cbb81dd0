//! Gathering the outcomes of a batch: all of them, or the first failure.

use std::collections::BTreeMap;
use vstd::prelude::*;

verus! {

/// Every outcome of the batch is a success.
pub open spec fn all_ok<T, E>(outcomes: Seq<Result<T, E>>) -> bool {
    forall|i: int| 0 <= i < outcomes.len() ==> (#[trigger] outcomes[i]) is Ok
}

/// The values of a batch of successes, in order.
pub open spec fn values<T, E>(outcomes: Seq<Result<T, E>>) -> Seq<T> {
    Seq::new(outcomes.len(), |i: int| outcomes[i]->Ok_0)
}

/// `at` is the position of the first failure in the batch.
pub open spec fn is_first_failure<T, E>(outcomes: Seq<Result<T, E>>, at: int) -> bool {
    &&& 0 <= at < outcomes.len()
    &&& outcomes[at] is Err
    &&& forall|j: int| 0 <= j < at ==> (#[trigger] outcomes[j]) is Ok
}

/// The values of a batch in order when none failed, else the position and
/// the cause of the first failure. Nothing behind a failure is looked at.
pub fn gather<T, E>(outcomes: Vec<Result<T, E>>) -> (res: Result<Vec<T>, (usize, E)>)
    ensures
        match res {
            Ok(list) => all_ok(outcomes@) && list@ == values(outcomes@),
            Err((at, cause)) => is_first_failure(outcomes@, at as int) && outcomes@[at as int]
                == Err::<T, E>(cause),
        },
{
    let mut list: Vec<T> = Vec::new();
    for outcome in it: outcomes.into_iter()
        invariant
            list@.len() == it.index(),
            forall|j: int| 0 <= j < it.index() ==> (#[trigger] outcomes@[j]) is Ok,
            forall|j: int| 0 <= j < it.index() ==> outcomes@[j]->Ok_0 == #[trigger] list@[j],
            it.seq() == outcomes@,
    {
        match outcome {
            Ok(value) => {
                list.push(value);
            },
            Err(cause) => {
                return Err((list.len(), cause));
            },
        }
    }
    Ok(list)
}

/// The values of a batch in order when none failed, else the cause of the
/// first failure.
pub fn collect_list<T, E>(outcomes: Vec<Result<T, E>>) -> (res: Result<Vec<T>, E>)
    ensures
        match res {
            Ok(list) => all_ok(outcomes@) && list@ == values(outcomes@),
            Err(cause) => exists|at: int|
                is_first_failure(outcomes@, at) && outcomes@[at] == Err::<T, E>(cause),
        },
{
    match gather(outcomes) {
        Ok(list) => Ok(list),
        Err((at, cause)) => {
            Err(cause)
        },
    }
}

/// The collection that a run of keyed rows amounts to: each identity with
/// the row that came with it, a later row replacing an earlier one of the
/// same identity.
pub open spec fn keyed<R>(entries: Seq<(i32, R)>) -> Map<i32, R>
    decreases entries.len(),
{
    if entries.len() == 0 {
        Map::empty()
    } else {
        keyed(entries.drop_last()).insert(entries.last().0, entries.last().1)
    }
}

/// The identities of a run of keyed rows are those of its collection.
pub proof fn lemma_keyed_identities<R>(entries: Seq<(i32, R)>, id: i32)
    ensures
        keyed(entries).contains_key(id) <==> exists|i: int|
            0 <= i < entries.len() && (#[trigger] entries[i]).0 == id,
    decreases entries.len(),
{
    if entries.len() > 0 {
        let front = entries.drop_last();
        lemma_keyed_identities(front, id);
        if keyed(front).contains_key(id) {
            let i = choose|i: int| 0 <= i < front.len() && (#[trigger] front[i]).0 == id;
            assert(entries[i].0 == id);
        }
        if exists|i: int| 0 <= i < entries.len() && (#[trigger] entries[i]).0 == id {
            let i = choose|i: int| 0 <= i < entries.len() && (#[trigger] entries[i]).0 == id;
            if i < entries.len() - 1 {
                assert(front[i].0 == id);
            }
        }
    }
}

/// The collection holds, under each identity, the last row that came with
/// it.
pub proof fn lemma_keyed_last_wins<R>(entries: Seq<(i32, R)>, at: int)
    requires
        0 <= at < entries.len(),
        forall|j: int| at < j < entries.len() ==> (#[trigger] entries[j]).0 != entries[at].0,
    ensures
        keyed(entries).contains_key(entries[at].0),
        keyed(entries)[entries[at].0] == entries[at].1,
    decreases entries.len(),
{
    if at < entries.len() - 1 {
        let front = entries.drop_last();
        assert forall|j: int| at < j < front.len() implies (#[trigger] front[j]).0
            != front[at].0 by {
            assert(entries[j].0 != entries[at].0);
        }
        lemma_keyed_last_wins(front, at);
    }
}

/// No two rows of the run have the same identity.
pub open spec fn distinct_identities<R>(entries: Seq<(i32, R)>) -> bool {
    forall|i: int, j: int|
        0 <= i < j < entries.len() ==> (#[trigger] entries[i]).0 != (#[trigger] entries[j]).0
}

/// Reading the same rows twice gives the same collection, in whatever order
/// the rows come: two runs of rows with identities of their own, each
/// holding every row of the other, amount to one collection.
pub proof fn lemma_keyed_any_order<R>(first: Seq<(i32, R)>, second: Seq<(i32, R)>)
    requires
        distinct_identities(first),
        distinct_identities(second),
        forall|i: int| 0 <= i < first.len() ==> second.contains(#[trigger] first[i]),
        forall|i: int| 0 <= i < second.len() ==> first.contains(#[trigger] second[i]),
    ensures
        keyed(first) == keyed(second),
{
    assert forall|id: i32| #[trigger]
        keyed(first).dom().contains(id) implies keyed(second).dom().contains(id) && keyed(
        second,
    )[id] == keyed(first)[id] by {
        lemma_keyed_identities(first, id);
        let i = choose|i: int| 0 <= i < first.len() && (#[trigger] first[i]).0 == id;
        lemma_keyed_last_wins(first, i);
        assert(second.contains(first[i]));
        let j = choose|j: int| 0 <= j < second.len() && second[j] == first[i];
        lemma_keyed_last_wins(second, j);
    }
    assert forall|id: i32| #[trigger]
        keyed(second).dom().contains(id) implies keyed(first).dom().contains(id) by {
        lemma_keyed_identities(second, id);
        let j = choose|j: int| 0 <= j < second.len() && (#[trigger] second[j]).0 == id;
        assert(first.contains(second[j]));
        let i = choose|i: int| 0 <= i < first.len() && first[i] == second[j];
        lemma_keyed_last_wins(first, i);
    }
    assert(keyed(first) =~= keyed(second));
}

/// A run of rows with identities of their own keeps every row: the
/// collection holds each under its identity.
pub proof fn lemma_keyed_keeps_distinct_rows<R>(entries: Seq<(i32, R)>, at: int)
    requires
        distinct_identities(entries),
        0 <= at < entries.len(),
    ensures
        keyed(entries).contains_key(entries[at].0),
        keyed(entries)[entries[at].0] == entries[at].1,
{
    lemma_keyed_last_wins(entries, at);
}

/// The keyed collection of a batch of rows when none failed, else the cause
/// of the first failure.
pub fn collect_keyed<R, E>(outcomes: Vec<Result<(i32, R), E>>) -> (res: Result<
    BTreeMap<i32, R>,
    E,
>)
    ensures
        match res {
            Ok(table) => all_ok(outcomes@) && table@ == keyed(values(outcomes@)),
            Err(cause) => exists|at: int|
                is_first_failure(outcomes@, at) && outcomes@[at] == Err::<(i32, R), E>(cause),
        },
{
    let entries = match collect_list(outcomes) {
        Ok(entries) => entries,
        Err(cause) => { return Err(cause); },
    };
    Ok(into_table(entries))
}

/// The keyed collection of a run of rows.
pub fn into_table<R>(entries: Vec<(i32, R)>) -> (table: BTreeMap<i32, R>)
    ensures
        table@ == keyed(entries@),
{
    broadcast use vstd::laws_cmp::group_laws_cmp;

    let mut table: BTreeMap<i32, R> = BTreeMap::new();
    for entry in it: entries.into_iter()
        invariant
            it.seq() == entries@,
            table@ == keyed(entries@.take(it.index())),
    {
        assert(entries@.take(it.index() + 1).drop_last() =~= entries@.take(it.index()));
        table.insert(entry.0, entry.1);
    }
    proof {
        lemma_take_whole(entries@);
    }
    table
}

/// Taking as many items as a sequence has leaves it as it is.
proof fn lemma_take_whole<A>(items: Seq<A>)
    ensures
        items.take(items.len() as int) == items,
{
    assert(items.take(items.len() as int) =~= items);
}


} // verus!
