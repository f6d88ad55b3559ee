//! Association lists with distinct keys, viewed as maps.
//!
//! The registries of this crate keep small keyed tables as vectors of pairs;
//! these spec functions and lemmas relate such a list to the map it
//! represents.

use vstd::prelude::*;

verus! {

/// Whether all keys in a pair list are distinct.
pub open spec fn distinct_keys<K, V>(s: Seq<(K, V)>) -> bool {
    forall|i: int, j: int| 0 <= i < j < s.len() ==> s[i].0 != s[j].0
}

/// The map represented by a pair list; later pairs win on duplicate keys.
pub open spec fn list_to_map<K, V>(s: Seq<(K, V)>) -> Map<K, V>
    decreases s.len(),
{
    if s.len() == 0 {
        Map::empty()
    } else {
        list_to_map(s.drop_last()).insert(s.last().0, s.last().1)
    }
}

/// A key is in the represented map exactly when some pair carries it, and
/// under distinct keys it maps to that pair's value.
pub proof fn lemma_list_to_map_membership<K, V>(s: Seq<(K, V)>, k: K)
    ensures
        list_to_map(s).dom().contains(k) <==> exists|i: int| 0 <= i < s.len() && s[i].0 == k,
        distinct_keys(s) ==> forall|i: int| 0 <= i < s.len() && s[i].0 == k
            ==> list_to_map(s)[k] == s[i].1,
    decreases s.len(),
{
    if s.len() > 0 {
        lemma_list_to_map_membership(s.drop_last(), k);
        assert(forall|i: int| 0 <= i < s.len() - 1 ==> s.drop_last()[i] == s[i]);
        if list_to_map(s).dom().contains(k) {
            if s.last().0 != k {
                let i = choose|i: int| 0 <= i < s.drop_last().len() && s.drop_last()[i].0 == k;
                assert(s[i].0 == k);
            }
        }
    }
}

/// Removing a pair keeps the remaining keys distinct.
pub proof fn lemma_distinct_keys_remove<K, V>(s: Seq<(K, V)>, i: int)
    requires
        distinct_keys(s),
        0 <= i < s.len(),
    ensures
        distinct_keys(s.remove(i)),
{
    assert forall|a: int, b: int| 0 <= a < b < s.remove(i).len()
        implies s.remove(i)[a].0 != s.remove(i)[b].0 by {
        let a2 = if a < i { a } else { a + 1 };
        let b2 = if b < i { b } else { b + 1 };
        assert(s.remove(i)[a] == s[a2]);
        assert(s.remove(i)[b] == s[b2]);
    }
}

/// Removing a pair removes exactly its key from the represented map, when
/// keys are distinct.
pub proof fn lemma_list_to_map_remove<K, V>(s: Seq<(K, V)>, i: int)
    requires
        distinct_keys(s),
        0 <= i < s.len(),
    ensures
        list_to_map(s.remove(i)) =~= list_to_map(s).remove(s[i].0),
    decreases s.len(),
{
    lemma_list_to_map_membership(s.drop_last(), s.last().0);
    if i == s.len() - 1 {
        assert(s.remove(i) =~= s.drop_last());
        assert(!list_to_map(s.drop_last()).dom().contains(s.last().0));
        assert(list_to_map(s.drop_last()).insert(s.last().0, s.last().1).remove(s.last().0)
            =~= list_to_map(s.drop_last()));
    } else {
        assert(forall|j: int, l: int| 0 <= j < l < s.drop_last().len()
            ==> s.drop_last()[j].0 != s.drop_last()[l].0);
        lemma_list_to_map_remove(s.drop_last(), i);
        assert(s.remove(i).drop_last() =~= s.drop_last().remove(i));
        assert(s.remove(i).last() == s.last());
        assert(list_to_map(s.remove(i))
            == list_to_map(s.drop_last().remove(i)).insert(s.last().0, s.last().1));
        assert(s[i].0 != s.last().0);
    }
}

/// Replacing the value of a pair updates exactly its key in the represented
/// map, when keys are distinct.
pub proof fn lemma_list_to_map_update<K, V>(s: Seq<(K, V)>, i: int, v: V)
    requires
        distinct_keys(s),
        0 <= i < s.len(),
    ensures
        list_to_map(s.update(i, (s[i].0, v))) =~= list_to_map(s).insert(s[i].0, v),
        distinct_keys(s.update(i, (s[i].0, v))),
    decreases s.len(),
{
    let t = s.update(i, (s[i].0, v));
    assert(distinct_keys(t)) by {
        assert(forall|a: int| 0 <= a < s.len() ==> t[a].0 == s[a].0);
    }
    if i == s.len() - 1 {
        assert(t.drop_last() =~= s.drop_last());
        assert(t.last() == (s[i].0, v));
    } else {
        assert(forall|j: int, l: int| 0 <= j < l < s.drop_last().len()
            ==> s.drop_last()[j].0 != s.drop_last()[l].0);
        lemma_list_to_map_update(s.drop_last(), i, v);
        assert(t.drop_last() =~= s.drop_last().update(i, (s[i].0, v)));
        assert(t.last() == s.last());
        assert(list_to_map(t)
            == list_to_map(s.drop_last().update(i, (s[i].0, v))).insert(s.last().0, s.last().1));
        assert(s[i].0 != s.last().0);
    }
}

/// Appending a pair with a fresh key inserts exactly that key into the
/// represented map and keeps the keys distinct.
pub proof fn lemma_list_to_map_push<K, V>(s: Seq<(K, V)>, k: K, v: V)
    requires
        distinct_keys(s),
        forall|i: int| 0 <= i < s.len() ==> s[i].0 != k,
    ensures
        list_to_map(s.push((k, v))) == list_to_map(s).insert(k, v),
        distinct_keys(s.push((k, v))),
{
    assert(s.push((k, v)).drop_last() =~= s);
}

} // verus!
