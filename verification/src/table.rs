//! An association table: a sequence of key/value pairs with pairwise distinct
//! keys, abstracted as a `Map`. The record store keeps each record kind in
//! such a table, keyed by the record's derived address.

use vstd::prelude::*;

verus! {

/// The keys of the pairs in `s` are pairwise distinct.
pub open spec fn keys_unique<K, V>(s: Seq<(K, V)>) -> bool {
    forall|i: int, j: int| 0 <= i < j < s.len() ==> s[i].0 != s[j].0
}

/// The map that the pair sequence `s` stands for. A later pair with the same
/// key would shadow an earlier one; under `keys_unique` that never happens.
pub open spec fn table_map<K, V>(s: Seq<(K, V)>) -> Map<K, V>
    decreases s.len(),
{
    if s.len() == 0 {
        Map::empty()
    } else {
        table_map(s.drop_last()).insert(s.last().0, s.last().1)
    }
}

/// A key is in the map exactly when some pair of the sequence carries it.
pub proof fn lemma_table_map_contains<K, V>(s: Seq<(K, V)>, k: K)
    ensures
        table_map(s).contains_key(k) <==> exists|i: int| 0 <= i < s.len() && s[i].0 == k,
    decreases s.len(),
{
    if s.len() > 0 {
        lemma_table_map_contains(s.drop_last(), k);
        if s.last().0 != k && table_map(s).contains_key(k) {
            let i = choose|i: int| 0 <= i < s.drop_last().len() && s.drop_last()[i].0 == k;
            assert(s[i].0 == k);
        }
        if exists|i: int| 0 <= i < s.len() && s[i].0 == k {
            let i = choose|i: int| 0 <= i < s.len() && s[i].0 == k;
            if i < s.len() - 1 {
                assert(s.drop_last()[i].0 == k);
            }
        }
    }
}

/// Under distinct keys, the pair at index `i` is what the map holds at its key.
pub proof fn lemma_table_map_index<K, V>(s: Seq<(K, V)>, i: int)
    requires
        keys_unique(s),
        0 <= i < s.len(),
    ensures
        table_map(s).contains_key(s[i].0),
        table_map(s)[s[i].0] == s[i].1,
    decreases s.len(),
{
    if i == s.len() - 1 {
        assert(s[i] == s.last());
    } else {
        assert(keys_unique(s.drop_last())) by {
            assert(forall|x: int, y: int|
                0 <= x < y < s.drop_last().len() ==> s.drop_last()[x].0 == s[x].0
                    && s.drop_last()[y].0 == s[y].0);
        }
        lemma_table_map_index(s.drop_last(), i);
        assert(s.drop_last()[i] == s[i]);
        assert(s.last().0 != s[i].0);
    }
}

/// Appending a pair makes the map gain exactly that binding.
pub proof fn lemma_table_map_push<K, V>(s: Seq<(K, V)>, k: K, v: V)
    ensures
        table_map(s.push((k, v))) == table_map(s).insert(k, v),
        (forall|i: int| 0 <= i < s.len() ==> s[i].0 != k) && keys_unique(s) ==> keys_unique(
            s.push((k, v)),
        ),
{
    let t = s.push((k, v));
    assert(t.drop_last() =~= s);
    assert(t.last() == (k, v));
    if (forall|i: int| 0 <= i < s.len() ==> s[i].0 != k) && keys_unique(s) {
        assert forall|x: int, y: int| 0 <= x < y < t.len() implies t[x].0 != t[y].0 by {
            if y < s.len() {
                assert(t[x] == s[x] && t[y] == s[y]);
            } else {
                assert(t[x] == s[x] && t[y] == (k, v));
            }
        }
    }
}

/// Replacing the pair at `i` by one with the same key updates that binding
/// and no other, and keeps the keys distinct.
pub proof fn lemma_table_map_update<K, V>(s: Seq<(K, V)>, i: int, k: K, v: V)
    requires
        keys_unique(s),
        0 <= i < s.len(),
        s[i].0 == k,
    ensures
        table_map(s.update(i, (k, v))) == table_map(s).insert(k, v),
        keys_unique(s.update(i, (k, v))),
    decreases s.len(),
{
    let t = s.update(i, (k, v));
    assert forall|x: int, y: int| 0 <= x < y < t.len() implies t[x].0 != t[y].0 by {
        assert(t[x].0 == if x == i { k } else { s[x].0 });
        assert(t[y].0 == if y == i { k } else { s[y].0 });
    }
    if i == s.len() - 1 {
        assert(t.drop_last() =~= s.drop_last());
        assert(t.last() == (k, v));
        assert(table_map(s) == table_map(s.drop_last()).insert(k, s[i].1));
        assert(table_map(s.drop_last()).insert(k, s[i].1).insert(k, v) =~= table_map(
            s.drop_last(),
        ).insert(k, v));
    } else {
        assert(keys_unique(s.drop_last())) by {
            assert(forall|x: int, y: int|
                0 <= x < y < s.drop_last().len() ==> s.drop_last()[x].0 == s[x].0
                    && s.drop_last()[y].0 == s[y].0);
        }
        assert(s.drop_last()[i] == s[i]);
        lemma_table_map_update(s.drop_last(), i, k, v);
        assert(t.drop_last() =~= s.drop_last().update(i, (k, v)));
        assert(t.last() == s.last());
        let lk = s.last().0;
        let lv = s.last().1;
        assert(lk != k);
        assert(table_map(t) == table_map(s.drop_last()).insert(k, v).insert(lk, lv));
        assert(table_map(s.drop_last()).insert(k, v).insert(lk, lv) =~= table_map(
            s.drop_last(),
        ).insert(lk, lv).insert(k, v));
    }
}

} // verus!
