//! Association lists read as maps: a list of (key, value) pairs where a later
//! pair for a key replaces an earlier one.

use vstd::prelude::*;

verus! {

/// The map that a list of pairs denotes.
pub open spec fn pairs_map<K, V>(s: Seq<(K, V)>) -> Map<K, V>
    decreases s.len(),
{
    if s.len() == 0 {
        Map::empty()
    } else {
        pairs_map(s.drop_last()).insert(s.last().0, s.last().1)
    }
}

/// No key occurs twice in the list.
pub open spec fn distinct_keys<K, V>(s: Seq<(K, V)>) -> bool {
    forall|i: int, j: int| 0 <= i < s.len() && 0 <= j < s.len() && i != j ==> s[i].0 != s[j].0
}

/// A list without repeated keys maps exactly its keys, each to its value.
pub proof fn lemma_pairs_map<K, V>(s: Seq<(K, V)>)
    requires
        distinct_keys(s),
    ensures
        forall|k: K| #[trigger] pairs_map(s).contains_key(k) <==> exists|i: int| 0 <= i < s.len() && s[i].0 == k,
        forall|i: int| 0 <= i < s.len() ==> pairs_map(s).contains_key(#[trigger] s[i].0),
        forall|i: int| 0 <= i < s.len() ==> pairs_map(s)[#[trigger] s[i].0] == s[i].1,
    decreases s.len(),
{
    if s.len() > 0 {
        let p = s.drop_last();
        let last = s.len() - 1;
        assert(distinct_keys(p));
        lemma_pairs_map(p);
        assert forall|k: K| #[trigger] pairs_map(s).contains_key(k)
            <==> exists|i: int| 0 <= i < s.len() && s[i].0 == k by {
            if pairs_map(s).contains_key(k) {
                if k == s.last().0 {
                    assert(s[last].0 == k);
                } else {
                    assert(pairs_map(p).contains_key(k));
                    let i = choose|i: int| 0 <= i < p.len() && p[i].0 == k;
                    assert(p[i] == s[i]);
                }
            }
            if exists|i: int| 0 <= i < s.len() && s[i].0 == k {
                let i = choose|i: int| 0 <= i < s.len() && s[i].0 == k;
                if i < last {
                    assert(p[i] == s[i]);
                    assert(pairs_map(p).contains_key(k));
                }
            }
        }
        assert forall|i: int| 0 <= i < s.len() implies pairs_map(s)[#[trigger] s[i].0] == s[i].1 by {
            if i < last {
                assert(p[i] == s[i]);
                assert(s[i].0 != s[last].0);
            }
        }
    }
}

/// Replacing the value of a pair changes the map at that pair's key.
pub proof fn lemma_pairs_update<K, V>(s: Seq<(K, V)>, i: int, kv: (K, V))
    requires
        distinct_keys(s),
        0 <= i < s.len(),
        kv.0 == s[i].0,
    ensures
        distinct_keys(s.update(i, kv)),
        pairs_map(s.update(i, kv)) == pairs_map(s).insert(kv.0, kv.1),
{
    let t = s.update(i, kv);
    assert forall|j: int| 0 <= j < t.len() implies #[trigger] t[j].0 == s[j].0 by {}
    assert(distinct_keys(t));
    lemma_pairs_map(s);
    lemma_pairs_map(t);
    assert forall|k: K| #[trigger] pairs_map(t).contains_key(k)
        <==> pairs_map(s).insert(kv.0, kv.1).contains_key(k) by {
        if pairs_map(s).contains_key(k) {
            let j = choose|j: int| 0 <= j < s.len() && s[j].0 == k;
            assert(t[j].0 == k);
        }
        if pairs_map(t).contains_key(k) {
            let j = choose|j: int| 0 <= j < t.len() && t[j].0 == k;
            assert(s[j].0 == k);
        }
        if k == kv.0 {
            assert(t[i].0 == k);
        }
    }
    assert forall|k: K| #[trigger] pairs_map(t).contains_key(k)
        implies pairs_map(t)[k] == pairs_map(s).insert(kv.0, kv.1)[k] by {
        let j = choose|j: int| 0 <= j < t.len() && t[j].0 == k;
        if j != i {
            assert(t[j] == s[j]);
            assert(pairs_map(s)[s[j].0] == s[j].1);
        }
    }
    assert(pairs_map(t) =~= pairs_map(s).insert(kv.0, kv.1));
}

/// Appending a pair with a new key adds it to the map.
pub proof fn lemma_pairs_push<K, V>(s: Seq<(K, V)>, kv: (K, V))
    requires
        distinct_keys(s),
        !pairs_map(s).contains_key(kv.0),
    ensures
        distinct_keys(s.push(kv)),
        pairs_map(s.push(kv)) == pairs_map(s).insert(kv.0, kv.1),
{
    let t = s.push(kv);
    lemma_pairs_map(s);
    assert(t.drop_last() == s);
    assert forall|i: int, j: int| 0 <= i < t.len() && 0 <= j < t.len() && i != j implies t[i].0 != t[j].0 by {
        if i == t.len() - 1 {
            assert(pairs_map(s).contains_key(s[j].0));
        } else if j == t.len() - 1 {
            assert(pairs_map(s).contains_key(s[i].0));
        } else {
            assert(t[i] == s[i] && t[j] == s[j]);
        }
    }
}

} // verus!
