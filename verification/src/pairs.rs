//! Lists of keyed pairs and the maps they stand for.
//!
//! Tables are stored as lists of pairs and reasoned about as maps from a key
//! to a value, so nothing that is stated of them depends on the order of
//! the pairs.

use vstd::prelude::*;

verus! {

/// Some pair of the list has the key `key`.
pub open spec fn has_key<V>(pairs: Seq<(Seq<char>, V)>, key: Seq<char>) -> bool {
    exists|i: int| 0 <= i < pairs.len() && (#[trigger] pairs[i]).0 == key
}

/// No two pairs of the list have the same key.
pub open spec fn distinct_keys<V>(pairs: Seq<(Seq<char>, V)>) -> bool {
    forall|i: int, j: int|
        0 <= i < j < pairs.len() ==> (#[trigger] pairs[i]).0 != (#[trigger] pairs[j]).0
}

/// The map that a list of pairs stands for. Of two pairs with the same key
/// the later one counts.
pub open spec fn pairs_map<V>(pairs: Seq<(Seq<char>, V)>) -> Map<Seq<char>, V>
    decreases pairs.len(),
{
    if pairs.len() == 0 {
        Map::empty()
    } else {
        pairs_map(pairs.drop_last()).insert(pairs.last().0, pairs.last().1)
    }
}

/// The keys of the map are the keys of the pairs, and there are finitely many.
pub proof fn lemma_pairs_map_keys<V>(pairs: Seq<(Seq<char>, V)>)
    ensures
        forall|k: Seq<char>| #[trigger] pairs_map(pairs).contains_key(k) <==> has_key(pairs, k),
        pairs_map(pairs).dom().finite(),
    decreases pairs.len(),
{
    if pairs.len() > 0 {
        let rest = pairs.drop_last();
        lemma_pairs_map_keys(rest);
        assert forall|k: Seq<char>| #[trigger]
            pairs_map(pairs).contains_key(k) <==> has_key(pairs, k) by {
            if has_key(pairs, k) {
                let i = choose|i: int| 0 <= i < pairs.len() && (#[trigger] pairs[i]).0 == k;
                if i < pairs.len() - 1 {
                    assert(rest[i].0 == k);
                    assert(has_key(rest, k));
                }
            }
            if pairs_map(pairs).contains_key(k) {
                if k == pairs.last().0 {
                    assert(pairs[pairs.len() - 1].0 == k);
                } else {
                    assert(has_key(rest, k));
                    let i = choose|i: int| 0 <= i < rest.len() && (#[trigger] rest[i]).0 == k;
                    assert(pairs[i].0 == k);
                }
            }
        }
    }
}

/// A pair that no later pair overrides is what the map holds under its key.
pub proof fn lemma_pairs_map_value<V>(pairs: Seq<(Seq<char>, V)>, i: int)
    requires
        0 <= i < pairs.len(),
        forall|j: int| i < j < pairs.len() ==> (#[trigger] pairs[j]).0 != pairs[i].0,
    ensures
        pairs_map(pairs).contains_key(pairs[i].0),
        pairs_map(pairs)[pairs[i].0] == pairs[i].1,
    decreases pairs.len(),
{
    if i < pairs.len() - 1 {
        let rest = pairs.drop_last();
        assert(rest[i] == pairs[i]);
        assert forall|j: int| i < j < rest.len() implies (#[trigger] rest[j]).0 != rest[i].0 by {
            assert(rest[j] == pairs[j]);
        }
        lemma_pairs_map_value(rest, i);
        assert(pairs[pairs.len() - 1].0 != pairs[i].0);
    }
}

/// Where the keys are distinct, every pair is what the map holds under its key.
pub proof fn lemma_pairs_map_distinct<V>(pairs: Seq<(Seq<char>, V)>)
    requires
        distinct_keys(pairs),
    ensures
        forall|i: int|
            0 <= i < pairs.len() ==> pairs_map(pairs).contains_key((#[trigger] pairs[i]).0)
                && pairs_map(pairs)[pairs[i].0] == pairs[i].1,
{
    assert forall|i: int| 0 <= i < pairs.len() implies pairs_map(pairs).contains_key(
        (#[trigger] pairs[i]).0,
    ) && pairs_map(pairs)[pairs[i].0] == pairs[i].1 by {
        lemma_pairs_map_value(pairs, i);
    }
}

/// One more pair at the end is one more entry in the map.
pub proof fn lemma_pairs_map_push<V>(pairs: Seq<(Seq<char>, V)>, key: Seq<char>, value: V)
    ensures
        pairs_map(pairs.push((key, value))) == pairs_map(pairs).insert(key, value),
{
    assert(pairs.push((key, value)).drop_last() =~= pairs);
}

/// Where the keys are distinct, a new value in place of a pair's old one is
/// a new entry under that pair's key.
pub proof fn lemma_pairs_map_update<V>(pairs: Seq<(Seq<char>, V)>, i: int, value: V)
    requires
        distinct_keys(pairs),
        0 <= i < pairs.len(),
    ensures
        distinct_keys(pairs.update(i, (pairs[i].0, value))),
        pairs_map(pairs.update(i, (pairs[i].0, value))) == pairs_map(pairs).insert(
            pairs[i].0,
            value,
        ),
{
    let key = pairs[i].0;
    let changed = pairs.update(i, (key, value));
    assert forall|a: int, b: int| 0 <= a < b < changed.len() implies (#[trigger] changed[a]).0 != (
    #[trigger] changed[b]).0 by {
        assert(changed[a].0 == pairs[a].0);
        assert(changed[b].0 == pairs[b].0);
    }
    lemma_pairs_map_keys(pairs);
    lemma_pairs_map_keys(changed);
    lemma_pairs_map_distinct(pairs);
    lemma_pairs_map_distinct(changed);
    let left = pairs_map(changed);
    let right = pairs_map(pairs).insert(key, value);
    assert forall|k: Seq<char>| left.contains_key(k) <==> right.contains_key(k) by {
        if has_key(changed, k) {
            let j = choose|j: int| 0 <= j < changed.len() && (#[trigger] changed[j]).0 == k;
            assert(pairs[j].0 == k);
        }
        if has_key(pairs, k) {
            let j = choose|j: int| 0 <= j < pairs.len() && (#[trigger] pairs[j]).0 == k;
            assert(changed[j].0 == k);
        }
        assert(pairs[i].0 == key);
        assert(changed[i].0 == key);
    }
    assert forall|k: Seq<char>| left.contains_key(k) implies left[k] == right[k] by {
        let j = choose|j: int| 0 <= j < changed.len() && (#[trigger] changed[j]).0 == k;
        assert(left[changed[j].0] == changed[j].1);
        if j != i {
            assert(pairs[j].0 == k);
            assert(pairs_map(pairs)[pairs[j].0] == pairs[j].1);
        }
    }
    assert(left =~= right);
}

/// A list with distinct keys stands for the map that holds each of its
/// pairs and has no key but theirs.
pub proof fn lemma_pairs_map_is<V>(pairs: Seq<(Seq<char>, V)>, map: Map<Seq<char>, V>)
    requires
        distinct_keys(pairs),
        forall|i: int|
            0 <= i < pairs.len() ==> map.contains_key((#[trigger] pairs[i]).0) && map[pairs[i].0]
                == pairs[i].1,
        forall|k: Seq<char>| #[trigger] map.contains_key(k) ==> has_key(pairs, k),
    ensures
        pairs_map(pairs) == map,
{
    lemma_pairs_map_distinct(pairs);
    lemma_pairs_map_keys(pairs);
    assert forall|k: Seq<char>| pairs_map(pairs).contains_key(k) implies map.contains_key(k)
        && pairs_map(pairs)[k] == map[k] by {
        let i = choose|i: int| 0 <= i < pairs.len() && (#[trigger] pairs[i]).0 == k;
        assert(map.contains_key(pairs[i].0));
        assert(pairs_map(pairs)[pairs[i].0] == pairs[i].1);
    }
    assert(pairs_map(pairs) =~= map);
}

} // verus!
