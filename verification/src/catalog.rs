//! Lists in which an entry is known under a text key: the first entry
//! with a key is the one the key names, and recording an entry under a key
//! that is taken replaces the entry that had it.

use vstd::prelude::*;

verus! {

/// Position of the first entry with key `id`, or the length of the list
/// when no entry has that key.
pub open spec fn position_by<V>(items: Seq<V>, key: spec_fn(V) -> Seq<char>, id: Seq<char>) -> int
    decreases items.len(),
{
    if items.len() == 0 {
        0
    } else if key(items[0]) == id {
        0
    } else {
        1 + position_by(items.drop_first(), key, id)
    }
}

/// Whether some entry of the list has key `id`.
pub open spec fn has_key<V>(items: Seq<V>, key: spec_fn(V) -> Seq<char>, id: Seq<char>) -> bool {
    exists|i: int| 0 <= i < items.len() && key(#[trigger] items[i]) == id
}

/// The entry known under `id`: the first of the list with that key.
pub open spec fn lookup_by<V>(items: Seq<V>, key: spec_fn(V) -> Seq<char>, id: Seq<char>) -> Option<
    V,
> {
    let at = position_by(items, key, id);
    if at < items.len() {
        Some(items[at])
    } else {
        None
    }
}

/// No two entries of the list share a key.
pub open spec fn keys_distinct<V>(items: Seq<V>, key: spec_fn(V) -> Seq<char>) -> bool {
    forall|i: int, j: int|
        0 <= i < j < items.len() ==> key(#[trigger] items[i]) != key(#[trigger] items[j])
}

/// The list after `item` was recorded under its key.
pub open spec fn put_by<V>(items: Seq<V>, key: spec_fn(V) -> Seq<char>, item: V) -> Seq<V> {
    let at = position_by(items, key, key(item));
    if at < items.len() {
        items.update(at, item)
    } else {
        items.push(item)
    }
}

/// `position_by` is the least position holding the key, and the length of
/// the list exactly when no position holds it.
pub proof fn lemma_position_by<V>(items: Seq<V>, key: spec_fn(V) -> Seq<char>, id: Seq<char>)
    ensures
        0 <= position_by(items, key, id) <= items.len(),
        position_by(items, key, id) < items.len() ==> key(items[position_by(items, key, id)]) == id,
        forall|j: int| 0 <= j < position_by(items, key, id) ==> key(#[trigger] items[j]) != id,
        has_key(items, key, id) <==> position_by(items, key, id) < items.len(),
    decreases items.len(),
{
    if items.len() == 0 {
    } else if key(items[0]) == id {
    } else {
        let rest = items.drop_first();
        lemma_position_by(rest, key, id);
        assert forall|j: int| 0 <= j < position_by(items, key, id) implies key(
            #[trigger] items[j],
        ) != id by {
            if j > 0 {
                assert(rest[j - 1] == items[j]);
            }
        }
        if has_key(items, key, id) {
            let i = choose|i: int| 0 <= i < items.len() && key(#[trigger] items[i]) == id;
            assert(rest[i - 1] == items[i]);
        }
        if position_by(items, key, id) < items.len() {
            assert(rest[position_by(rest, key, id)] == items[position_by(rest, key, id) + 1]);
        }
    }
}

/// A position that holds the key, with no position before it holding it, is
/// what `position_by` finds; and where no position holds the key it finds
/// the length of the list.
pub proof fn lemma_position_by_is<V>(
    items: Seq<V>,
    key: spec_fn(V) -> Seq<char>,
    id: Seq<char>,
    at: int,
)
    requires
        0 <= at <= items.len(),
        at < items.len() ==> key(items[at]) == id,
        forall|j: int| 0 <= j < at ==> key(#[trigger] items[j]) != id,
    ensures
        position_by(items, key, id) == at,
{
    lemma_position_by(items, key, id);
    let found = position_by(items, key, id);
    if found < at {
        assert(key(items[found]) != id);
    }
}

/// Recording replaces: after an entry was recorded it is the one known
/// under its key, every other key leads where it led before, and a list
/// without two entries of one key stays such a list.
pub proof fn law_recording_replaces<V>(
    items: Seq<V>,
    key: spec_fn(V) -> Seq<char>,
    item: V,
    other: Seq<char>,
)
    ensures
        lookup_by(put_by(items, key, item), key, key(item)) == Some(item),
        other != key(item) ==> lookup_by(put_by(items, key, item), key, other) == lookup_by(
            items,
            key,
            other,
        ),
        keys_distinct(items, key) ==> keys_distinct(put_by(items, key, item), key),
{
    let after = put_by(items, key, item);
    let at = position_by(items, key, key(item));
    lemma_position_by(items, key, key(item));
    lemma_position_by(after, key, key(item));
    lemma_position_by(items, key, other);
    lemma_position_by(after, key, other);
    assert(after[at] == item);
    let at2 = position_by(after, key, key(item));
    if at2 < at {
        assert(key(items[at2]) != key(item));
    }
    if other != key(item) {
        let p = position_by(items, key, other);
        let q = position_by(after, key, other);
        if p < items.len() {
            assert(key(after[p]) == other);
        }
        if q < after.len() {
            assert(q != at);
            assert(key(items[q]) == other);
        }
        if p < q {
            assert(key(after[p]) != other);
        }
        if q < p {
            assert(key(items[q]) != other);
        }
    }
    if keys_distinct(items, key) {
        assert forall|i: int, j: int| 0 <= i < j < after.len() implies key(#[trigger] after[i])
            != key(#[trigger] after[j]) by {
            if at < items.len() {
                if i == at {
                    assert(key(items[i]) == key(item));
                    assert(key(items[j]) != key(items[i]));
                } else if j == at {
                    assert(key(items[j]) == key(item));
                    assert(key(items[i]) != key(items[j]));
                } else {
                    assert(key(items[i]) != key(items[j]));
                }
            } else {
                if j == items.len() {
                    assert(key(items[i]) != key(item));
                } else {
                    assert(key(items[i]) != key(items[j]));
                }
            }
        }
    }
}

} // verus!
