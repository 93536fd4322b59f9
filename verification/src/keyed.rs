//! Lists of pairs whose first component is a key: the model shared by an
//! environment (key and value) and by the registry (name and handle).

use vstd::prelude::*;

verus! {

/// Position of the first pair of `list` with the key `key`, or `list.len()` if
/// there is none.
pub open spec fn key_index<V>(list: Seq<(Seq<char>, V)>, key: Seq<char>) -> nat
    decreases list.len(),
{
    if list.len() > 0 && list[0].0 != key {
        1 + key_index(list.drop_first(), key)
    } else {
        0
    }
}

/// Whether some pair of `list` has the key `key`.
pub open spec fn sets_key<V>(list: Seq<(Seq<char>, V)>, key: Seq<char>) -> bool {
    exists|i: int| 0 <= i < list.len() && (#[trigger] list[i]).0 == key
}

/// Whether no key occurs twice in `list`.
pub open spec fn distinct_keys<V>(list: Seq<(Seq<char>, V)>) -> bool {
    forall|i: int, j: int|
        0 <= i < j < list.len() ==> (#[trigger] list[i]).0 != (#[trigger] list[j]).0
}

/// The mapping that `list` stands for: each key with the value of its first pair.
pub open spec fn as_map<V>(list: Seq<(Seq<char>, V)>) -> Map<Seq<char>, V> {
    Map::new(|k: Seq<char>| sets_key(list, k), |k: Seq<char>| list[key_index(list, k) as int].1)
}

/// `key_index` finds the first pair with the key, and only that.
pub proof fn lemma_key_index<V>(list: Seq<(Seq<char>, V)>, key: Seq<char>)
    ensures
        key_index(list, key) <= list.len(),
        forall|i: int| 0 <= i < key_index(list, key) ==> (#[trigger] list[i]).0 != key,
        key_index(list, key) < list.len() ==> list[key_index(list, key) as int].0 == key,
        key_index(list, key) < list.len() <==> sets_key(list, key),
    decreases list.len(),
{
    if list.len() > 0 && list[0].0 != key {
        let rest = list.drop_first();
        lemma_key_index(rest, key);
        assert forall|i: int| 0 <= i < key_index(list, key) implies (#[trigger] list[i]).0
            != key by {
            if i > 0 {
                assert(list[i] == rest[i - 1]);
            }
        }
        if key_index(list, key) < list.len() {
            assert(list[key_index(list, key) as int] == rest[key_index(rest, key) as int]);
        }
    }
    if sets_key(list, key) {
        let i = choose|i: int| 0 <= i < list.len() && (#[trigger] list[i]).0 == key;
        if key_index(list, key) >= list.len() {
            assert(list[i].0 != key);
        }
    }
}

/// The position `at` is the one that `key_index` finds when no pair before it
/// has the key and the pair at it, if there is one, has.
pub proof fn lemma_key_index_is<V>(list: Seq<(Seq<char>, V)>, key: Seq<char>, at: int)
    requires
        0 <= at <= list.len(),
        forall|i: int| 0 <= i < at ==> (#[trigger] list[i]).0 != key,
        at < list.len() ==> list[at].0 == key,
    ensures
        key_index(list, key) == at,
{
    lemma_key_index(list, key);
    let found = key_index(list, key) as int;
    if found < at {
        assert(list[found].0 != key);
    }
    if at < found {
        assert(list[at].0 != key);
    }
}

/// Where no key occurs twice, the pair at `at` is the one found for its key.
pub proof fn lemma_key_index_distinct<V>(list: Seq<(Seq<char>, V)>, at: int)
    requires
        distinct_keys(list),
        0 <= at < list.len(),
    ensures
        key_index(list, list[at].0) == at,
{
    lemma_key_index(list, list[at].0);
    let found = key_index(list, list[at].0) as int;
    if found < at {
        assert(list[found].0 != list[at].0);
    }
}

/// A new key at the end: the mapping gains that key.
pub proof fn lemma_as_map_push<V>(list: Seq<(Seq<char>, V)>, pair: (Seq<char>, V))
    requires
        distinct_keys(list),
        !sets_key(list, pair.0),
    ensures
        distinct_keys(list.push(pair)),
        as_map(list.push(pair)) == as_map(list).insert(pair.0, pair.1),
{
    let next = list.push(pair);
    assert forall|i: int, j: int| 0 <= i < j < next.len() implies (#[trigger] next[i]).0 != (
    #[trigger] next[j]).0 by {
        assert(next[i] == list[i]);
        if j < list.len() {
            assert(next[j] == list[j]);
        }
    }
    assert forall|k: Seq<char>| sets_key(next, k) <==> (k == pair.0 || sets_key(list, k)) by {
        if sets_key(next, k) {
            let i = choose|i: int| 0 <= i < next.len() && (#[trigger] next[i]).0 == k;
            if i < list.len() {
                assert(list[i].0 == k);
            }
        }
        if sets_key(list, k) {
            let i = choose|i: int| 0 <= i < list.len() && (#[trigger] list[i]).0 == k;
            assert(next[i].0 == k);
        }
        if k == pair.0 {
            assert(next[list.len() as int].0 == k);
        }
    }
    assert forall|k: Seq<char>| sets_key(next, k) implies #[trigger] as_map(next)[k] == as_map(
        list,
    ).insert(pair.0, pair.1)[k] by {
        let i = choose|i: int| 0 <= i < next.len() && (#[trigger] next[i]).0 == k;
        lemma_key_index_distinct(next, i);
        if i < list.len() {
            assert(next[i] == list[i]);
            lemma_key_index_distinct(list, i);
        }
    }
    assert(as_map(next) =~= as_map(list).insert(pair.0, pair.1));
}

/// A new value for the pair at `at`: the mapping has the new value for that key.
pub proof fn lemma_as_map_update<V>(list: Seq<(Seq<char>, V)>, at: int, value: V)
    requires
        distinct_keys(list),
        0 <= at < list.len(),
    ensures
        distinct_keys(list.update(at, (list[at].0, value))),
        as_map(list.update(at, (list[at].0, value))) == as_map(list).insert(list[at].0, value),
{
    let key = list[at].0;
    let next = list.update(at, (key, value));
    assert forall|i: int| 0 <= i < list.len() implies (#[trigger] next[i]).0 == list[i].0 by {}
    assert forall|i: int, j: int| 0 <= i < j < next.len() implies (#[trigger] next[i]).0 != (
    #[trigger] next[j]).0 by {
        assert(next[i].0 == list[i].0 && next[j].0 == list[j].0);
    }
    assert forall|k: Seq<char>| sets_key(next, k) <==> (k == key || sets_key(list, k)) by {
        if sets_key(next, k) {
            let i = choose|i: int| 0 <= i < next.len() && (#[trigger] next[i]).0 == k;
            assert(list[i].0 == k);
        }
        if sets_key(list, k) {
            let i = choose|i: int| 0 <= i < list.len() && (#[trigger] list[i]).0 == k;
            assert(next[i].0 == k);
        }
        if k == key {
            assert(next[at].0 == k);
        }
    }
    assert forall|k: Seq<char>| sets_key(next, k) implies #[trigger] as_map(next)[k] == as_map(
        list,
    ).insert(key, value)[k] by {
        let i = choose|i: int| 0 <= i < next.len() && (#[trigger] next[i]).0 == k;
        lemma_key_index_distinct(next, i);
        assert(list[i].0 == k);
        lemma_key_index_distinct(list, i);
    }
    assert(as_map(next) =~= as_map(list).insert(key, value));
}

/// The pair at `at` taken out: the mapping loses that key.
pub proof fn lemma_as_map_remove<V>(list: Seq<(Seq<char>, V)>, at: int)
    requires
        distinct_keys(list),
        0 <= at < list.len(),
    ensures
        distinct_keys(list.remove(at)),
        as_map(list.remove(at)) == as_map(list).remove(list[at].0),
{
    let key = list[at].0;
    let next = list.remove(at);
    assert forall|i: int| 0 <= i < next.len() implies #[trigger] next[i] == list[if i < at {
        i
    } else {
        i + 1
    }] by {}
    assert forall|i: int, j: int| 0 <= i < j < next.len() implies (#[trigger] next[i]).0 != (
    #[trigger] next[j]).0 by {
        let a = if i < at { i } else { i + 1 };
        let b = if j < at { j } else { j + 1 };
        assert(next[i] == list[a] && next[j] == list[b]);
    }
    assert forall|k: Seq<char>| sets_key(next, k) <==> (k != key && sets_key(list, k)) by {
        if sets_key(next, k) {
            let i = choose|i: int| 0 <= i < next.len() && (#[trigger] next[i]).0 == k;
            let a = if i < at { i } else { i + 1 };
            assert(list[a].0 == k);
            assert(list[a].0 != list[at].0);
        }
        if k != key && sets_key(list, k) {
            let a = choose|a: int| 0 <= a < list.len() && (#[trigger] list[a]).0 == k;
            let i = if a < at { a } else { a - 1 };
            assert(next[i].0 == k);
        }
    }
    assert forall|k: Seq<char>| sets_key(next, k) implies #[trigger] as_map(next)[k] == as_map(
        list,
    ).remove(key)[k] by {
        let i = choose|i: int| 0 <= i < next.len() && (#[trigger] next[i]).0 == k;
        let a = if i < at { i } else { i + 1 };
        lemma_key_index_distinct(next, i);
        assert(next[i] == list[a]);
        lemma_key_index_distinct(list, a);
    }
    assert(as_map(next) =~= as_map(list).remove(key));
}

/// Where no key occurs twice, the mapping has as many keys as the list has pairs.
pub proof fn lemma_as_map_len<V>(list: Seq<(Seq<char>, V)>)
    requires
        distinct_keys(list),
    ensures
        as_map(list).dom().finite(),
        as_map(list).dom().len() == list.len(),
    decreases list.len(),
{
    if list.len() == 0 {
        assert(as_map(list).dom() =~= Set::<Seq<char>>::empty());
    } else {
        let front = list.drop_last();
        assert forall|i: int, j: int| 0 <= i < j < front.len() implies (#[trigger] front[i]).0 != (
        #[trigger] front[j]).0 by {
            assert(front[i] == list[i] && front[j] == list[j]);
        }
        lemma_as_map_len(front);
        if sets_key(front, list.last().0) {
            let i = choose|i: int| 0 <= i < front.len() && (#[trigger] front[i]).0 == list.last().0;
            assert(front[i] == list[i]);
            assert(list[i].0 != list[list.len() - 1].0);
        }
        lemma_as_map_push(front, list.last());
        assert(front.push(list.last()) =~= list);
        assert(as_map(list).dom() =~= as_map(front).dom().insert(list.last().0));
    }
}

} // verus!
