//! Association lists as finite maps: a sequence of key/value pairs whose keys
//! are pairwise distinct stands for the map that sends each key to its value.

use vstd::prelude::*;

verus! {

/// No key occurs at two places of `s`.
pub open spec fn keys_distinct<K, V>(s: Seq<(K, V)>) -> bool {
    forall|i: int, j: int| 0 <= i < j < s.len() ==> s[i].0 != s[j].0
}

/// `k` is the key of some pair of `s`.
pub open spec fn has_key<K, V>(s: Seq<(K, V)>, k: K) -> bool {
    exists|i: int| 0 <= i < s.len() && #[trigger] s[i].0 == k
}

/// A place of `s` that holds the key `k`.
pub open spec fn index_of<K, V>(s: Seq<(K, V)>, k: K) -> int {
    choose|i: int| 0 <= i < s.len() && #[trigger] s[i].0 == k
}

/// The map that `s` stands for.
pub open spec fn to_map<K, V>(s: Seq<(K, V)>) -> Map<K, V> {
    Map::new(|k: K| has_key(s, k), |k: K| s[index_of(s, k)].1)
}

/// With distinct keys, each pair of the list is an entry of the map.
pub proof fn lemma_entry<K, V>(s: Seq<(K, V)>, i: int)
    requires
        keys_distinct(s),
        0 <= i < s.len(),
    ensures
        has_key(s, s[i].0),
        index_of(s, s[i].0) == i,
        to_map(s).dom().contains(s[i].0),
        to_map(s)[s[i].0] == s[i].1,
{
    let k = s[i].0;
    assert(s[i].0 == k);
    let j = index_of(s, k);
    assert(0 <= j < s.len() && s[j].0 == k);
    if j < i {
        assert(s[j].0 != s[i].0);
    } else if i < j {
        assert(s[i].0 != s[j].0);
    }
}

/// The empty list stands for the empty map.
pub proof fn lemma_empty<K, V>()
    ensures
        keys_distinct(Seq::<(K, V)>::empty()),
        to_map(Seq::<(K, V)>::empty()) == Map::<K, V>::empty(),
{
    assert(to_map(Seq::<(K, V)>::empty()) =~= Map::<K, V>::empty());
}

/// Appending a pair with a new key inserts it into the map.
pub proof fn lemma_push<K, V>(s: Seq<(K, V)>, k: K, v: V)
    requires
        keys_distinct(s),
        !has_key(s, k),
    ensures
        keys_distinct(s.push((k, v))),
        to_map(s.push((k, v))) == to_map(s).insert(k, v),
{
    let t = s.push((k, v));
    assert forall|i: int, j: int| 0 <= i < j < t.len() implies t[i].0 != t[j].0 by {
        if j == s.len() {
            assert(s[i].0 == t[i].0);
        } else {
            assert(s[i].0 != s[j].0);
        }
    }
    assert forall|x: K| has_key(t, x) == (x == k || has_key(s, x)) by {
        if has_key(t, x) {
            let i = index_of(t, x);
            if i < s.len() {
                assert(s[i].0 == x);
            }
        }
        if x == k {
            assert(t[s.len() as int].0 == k);
        }
        if has_key(s, x) {
            let i = index_of(s, x);
            assert(t[i].0 == x);
        }
    }
    assert forall|x: K| has_key(t, x) implies #[trigger] to_map(t)[x] == to_map(s).insert(k, v)[x] by {
        let i = index_of(t, x);
        lemma_entry(t, i);
        if i < s.len() {
            assert(s[i].0 == x);
            lemma_entry(s, i);
        }
    }
    assert(to_map(t) =~= to_map(s).insert(k, v));
}

/// Replacing the value at the place of a key updates the map at that key.
pub proof fn lemma_update<K, V>(s: Seq<(K, V)>, i: int, k: K, v: V)
    requires
        keys_distinct(s),
        0 <= i < s.len(),
        s[i].0 == k,
    ensures
        keys_distinct(s.update(i, (k, v))),
        to_map(s.update(i, (k, v))) == to_map(s).insert(k, v),
{
    let t = s.update(i, (k, v));
    assert forall|a: int, b: int| 0 <= a < b < t.len() implies t[a].0 != t[b].0 by {
        assert(t[a].0 == s[a].0);
        assert(t[b].0 == s[b].0);
    }
    assert forall|x: K| has_key(t, x) == has_key(s, x) by {
        if has_key(t, x) {
            let j = index_of(t, x);
            assert(s[j].0 == x);
        }
        if has_key(s, x) {
            let j = index_of(s, x);
            assert(t[j].0 == x);
        }
    }
    assert(s[i].0 == k);
    assert forall|x: K| has_key(t, x) implies #[trigger] to_map(t)[x] == to_map(s).insert(k, v)[x] by {
        let j = index_of(t, x);
        lemma_entry(t, j);
        if j != i {
            assert(s[j].0 == x);
            lemma_entry(s, j);
        }
    }
    assert(to_map(t) =~= to_map(s).insert(k, v));
}

/// A key that no pair holds is outside the map.
pub proof fn lemma_absent<K, V>(s: Seq<(K, V)>, k: K)
    requires
        forall|i: int| 0 <= i < s.len() ==> (#[trigger] s[i]).0 != k,
    ensures
        !has_key(s, k),
        !to_map(s).dom().contains(k),
{
    if has_key(s, k) {
        let i = index_of(s, k);
        assert(s[i].0 == k);
    }
}

/// With distinct keys, the map has as many entries as the list has pairs.
pub proof fn lemma_len<K, V>(s: Seq<(K, V)>)
    requires
        keys_distinct(s),
    ensures
        to_map(s).dom().finite(),
        to_map(s).dom().len() == s.len(),
    decreases s.len(),
{
    if s.len() == 0 {
        assert(to_map(s).dom() =~= Set::<K>::empty());
    } else {
        let last = s.last();
        let init = s.drop_last();
        assert forall|i: int, j: int| 0 <= i < j < init.len() implies init[i].0 != init[j].0 by {
            assert(s[i].0 != s[j].0);
        }
        lemma_len(init);
        assert forall|i: int| 0 <= i < init.len() implies (#[trigger] init[i]).0 != last.0 by {
            assert(s[i].0 != s[s.len() - 1].0);
        }
        lemma_absent(init, last.0);
        lemma_push(init, last.0, last.1);
        assert(init.push((last.0, last.1)) =~= s);
        assert(to_map(s).dom() =~= to_map(init).dom().insert(last.0));
    }
}

} // verus!
