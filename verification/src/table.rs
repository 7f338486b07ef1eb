//! Association lists as finite maps.
//!
//! The store keeps each relation as a vector of rows. This module says what
//! map a sequence of `(key, value)` rows stands for when no key occurs twice,
//! and how pushing, replacing and removing a row changes that map.

use vstd::prelude::*;

verus! {

/// No key occurs in two rows.
pub open spec fn distinct_keys<K, V>(rows: Seq<(K, V)>) -> bool {
    forall|i: int, j: int| 0 <= i < j < rows.len() ==> (#[trigger] rows[i]).0 != (#[trigger] rows[j]).0
}

/// Some row carries `key`.
pub open spec fn has_key<K, V>(rows: Seq<(K, V)>, key: K) -> bool {
    exists|i: int| 0 <= i < rows.len() && (#[trigger] rows[i]).0 == key
}

/// The position of a row that carries `key`.
pub open spec fn index_of<K, V>(rows: Seq<(K, V)>, key: K) -> int {
    choose|i: int| 0 <= i < rows.len() && (#[trigger] rows[i]).0 == key
}

/// The map that the rows stand for.
pub open spec fn as_map<K, V>(rows: Seq<(K, V)>) -> Map<K, V> {
    Map::new(|key: K| has_key(rows, key), |key: K| rows[index_of(rows, key)].1)
}

/// The map built by inserting the rows one after the other, so that the
/// last row of a key decides its value.
pub open spec fn last_wins<K, V>(rows: Seq<(K, V)>) -> Map<K, V>
    decreases rows.len(),
{
    if rows.len() == 0 {
        Map::empty()
    } else {
        last_wins(rows.drop_last()).insert(rows.last().0, rows.last().1)
    }
}

/// Every row of a table without repeated keys is an entry of its map.
pub proof fn lemma_rows_in_map<K, V>(rows: Seq<(K, V)>)
    requires
        distinct_keys(rows),
    ensures
        forall|i: int|
            0 <= i < rows.len() ==> as_map(rows).contains_key((#[trigger] rows[i]).0) && as_map(
                rows,
            )[rows[i].0] == rows[i].1,
        forall|key: K| #[trigger] as_map(rows).contains_key(key) <==> has_key(rows, key),
{
    assert forall|i: int| 0 <= i < rows.len() implies as_map(rows).contains_key(
        (#[trigger] rows[i]).0,
    ) && as_map(rows)[rows[i].0] == rows[i].1 by {
        let key = rows[i].0;
        let j = index_of(rows, key);
    }
}

/// A key that no row carries is not in the map.
pub proof fn lemma_key_absent<K, V>(rows: Seq<(K, V)>, key: K)
    requires
        forall|i: int| 0 <= i < rows.len() ==> (#[trigger] rows[i]).0 != key,
    ensures
        !as_map(rows).contains_key(key),
{
}

/// The empty table stands for the empty map.
pub proof fn lemma_empty<K, V>(rows: Seq<(K, V)>)
    requires
        rows.len() == 0,
    ensures
        distinct_keys(rows),
        as_map(rows) == Map::<K, V>::empty(),
{
}

/// Pushing a row with a fresh key inserts it into the map.
pub proof fn lemma_push<K, V>(rows: Seq<(K, V)>, key: K, value: V)
    requires
        distinct_keys(rows),
        !as_map(rows).contains_key(key),
    ensures
        distinct_keys(rows.push((key, value))),
        as_map(rows.push((key, value))) == as_map(rows).insert(key, value),
{
    let grown = rows.push((key, value));
    assert forall|k: K| as_map(grown).contains_key(k) <==> as_map(rows).insert(
        key,
        value,
    ).contains_key(k) by {
        if as_map(rows).contains_key(k) {
            assert(grown[index_of(rows, k)] == rows[index_of(rows, k)]);
        }
        if k == key {
            assert(grown[rows.len() as int].0 == key);
        }
    }
    assert forall|k: K| as_map(grown).contains_key(k) implies as_map(grown)[k] == as_map(
        rows,
    ).insert(key, value)[k] by {}
}

/// Replacing the value of a row replaces it in the map.
pub proof fn lemma_update<K, V>(rows: Seq<(K, V)>, at: int, value: V)
    requires
        distinct_keys(rows),
        0 <= at < rows.len(),
    ensures
        distinct_keys(rows.update(at, (rows[at].0, value))),
        as_map(rows.update(at, (rows[at].0, value))) == as_map(rows).insert(rows[at].0, value),
{
    let key = rows[at].0;
    let changed = rows.update(at, (key, value));
    assert forall|k: K| as_map(changed).contains_key(k) <==> as_map(rows).insert(
        key,
        value,
    ).contains_key(k) by {
        if as_map(rows).contains_key(k) {
            assert(changed[index_of(rows, k)].0 == rows[index_of(rows, k)].0);
        }
    }
    assert forall|k: K| as_map(changed).contains_key(k) implies as_map(changed)[k] == as_map(
        rows,
    ).insert(key, value)[k] by {}
}

/// Removing a row removes its key from the map.
pub proof fn lemma_remove<K, V>(rows: Seq<(K, V)>, at: int)
    requires
        distinct_keys(rows),
        0 <= at < rows.len(),
    ensures
        distinct_keys(rows.remove(at)),
        as_map(rows.remove(at)) == as_map(rows).remove(rows[at].0),
{
    let key = rows[at].0;
    let rest = rows.remove(at);
    assert forall|i: int| 0 <= i < rest.len() implies #[trigger] rest[i] == rows[if i < at {
        i
    } else {
        i + 1
    }] by {}
    assert forall|k: K| as_map(rest).contains_key(k) <==> as_map(rows).remove(key).contains_key(
        k,
    ) by {
        if as_map(rows).contains_key(k) && k != key {
            let a = index_of(rows, k);
            assert(rest[if a < at { a } else { a - 1 }] == rows[a]);
        }
    }
    assert forall|k: K| as_map(rest).contains_key(k) implies as_map(rest)[k] == as_map(
        rows,
    ).remove(key)[k] by {}
}

/// Reading a table row by row: the first `at + 1` rows stand for the map of
/// the first `at` rows with row `at` inserted, and its key is fresh there.
pub proof fn lemma_take_next<K, V>(rows: Seq<(K, V)>, at: int)
    requires
        distinct_keys(rows),
        0 <= at < rows.len(),
    ensures
        distinct_keys(rows.take(at)),
        distinct_keys(rows.take(at + 1)),
        !as_map(rows.take(at)).contains_key(rows[at].0),
        as_map(rows.take(at + 1)) == as_map(rows.take(at)).insert(rows[at].0, rows[at].1),
{
    let head = rows.take(at);
    lemma_push(head, rows[at].0, rows[at].1);
    assert(rows.take(at + 1) =~= head.push((rows[at].0, rows[at].1)));
}

/// The elements of the first `at + 1` items are those of the first `at`
/// and item `at`.
pub proof fn lemma_take_to_set<A>(items: Seq<A>, at: int)
    requires
        0 <= at < items.len(),
    ensures
        items.take(at + 1).to_set() == items.take(at).to_set().insert(items[at]),
{
    let head = items.take(at);
    let more = items.take(at + 1);
    assert forall|x: A| more.to_set().contains(x) <==> head.to_set().insert(items[at]).contains(
        x,
    ) by {
        assert(more[at] == items[at]);
    }
}

} // verus!
