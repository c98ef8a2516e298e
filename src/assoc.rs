//! Association lists: a sequence of `(key, value)` pairs read as a map in which
//! a later pair overrides an earlier one with the same key.

use vstd::prelude::*;

verus! {

/// The map that a list of pairs stands for: later pairs win.
pub open spec fn assoc_map<K: View, V>(s: Seq<(K, V)>) -> Map<K::V, V>
    decreases s.len(),
{
    if s.len() == 0 {
        Map::empty()
    } else {
        assoc_map(s.drop_last()).insert(s.last().0@, s.last().1)
    }
}

/// No two pairs share a key.
pub open spec fn keys_distinct<K: View, V>(s: Seq<(K, V)>) -> bool {
    forall|i: int, j: int| 0 <= i < j < s.len() ==> s[i].0@ != s[j].0@
}

/// Some pair of the list has key `k`.
pub open spec fn has_key<K: View, V>(s: Seq<(K, V)>, k: K::V) -> bool {
    exists|i: int| 0 <= i < s.len() && s[i].0@ == k
}

pub proof fn lemma_assoc_push<K: View, V>(s: Seq<(K, V)>, e: (K, V))
    ensures
        assoc_map(s.push(e)) == assoc_map(s).insert(e.0@, e.1),
{
    assert(s.push(e).drop_last() =~= s);
}

pub proof fn lemma_assoc_domain<K: View, V>(s: Seq<(K, V)>, k: K::V)
    ensures
        assoc_map(s).contains_key(k) <==> has_key(s, k),
    decreases s.len(),
{
    if s.len() > 0 {
        let t = s.drop_last();
        lemma_assoc_domain(t, k);
        if has_key(t, k) {
            let i = choose|i: int| 0 <= i < t.len() && t[i].0@ == k;
            assert(s[i].0@ == k);
        }
        if has_key(s, k) && s.last().0@ != k {
            let i = choose|i: int| 0 <= i < s.len() && s[i].0@ == k;
            assert(t[i].0@ == k);
        }
    }
}

pub proof fn lemma_assoc_value<K: View, V>(s: Seq<(K, V)>, i: int)
    requires
        keys_distinct(s),
        0 <= i < s.len(),
    ensures
        assoc_map(s).contains_key(s[i].0@),
        assoc_map(s)[s[i].0@] == s[i].1,
    decreases s.len(),
{
    if i < s.len() - 1 {
        let t = s.drop_last();
        assert(t[i] == s[i]);
        lemma_assoc_value(t, i);
    }
}

pub proof fn lemma_assoc_update<K: View, V>(s: Seq<(K, V)>, i: int, v: V)
    requires
        keys_distinct(s),
        0 <= i < s.len(),
    ensures
        keys_distinct(s.update(i, (s[i].0, v))),
        assoc_map(s.update(i, (s[i].0, v))) == assoc_map(s).insert(s[i].0@, v),
    decreases s.len(),
{
    let u = s.update(i, (s[i].0, v));
    let k = s[i].0@;
    if i == s.len() - 1 {
        assert(u.drop_last() =~= s.drop_last());
        assert(assoc_map(u) =~= assoc_map(s).insert(k, v));
    } else {
        let t = s.drop_last();
        assert(t[i] == s[i]);
        lemma_assoc_update(t, i, v);
        assert(u.drop_last() =~= t.update(i, (t[i].0, v)));
        assert(assoc_map(u) =~= assoc_map(s).insert(k, v));
    }
}

pub proof fn lemma_assoc_remove<K: View, V>(s: Seq<(K, V)>, i: int)
    requires
        keys_distinct(s),
        0 <= i < s.len(),
    ensures
        keys_distinct(s.remove(i)),
        assoc_map(s.remove(i)) == assoc_map(s).remove(s[i].0@),
    decreases s.len(),
{
    let r = s.remove(i);
    let k = s[i].0@;
    let t = s.drop_last();
    assert forall|a: int, b: int| 0 <= a < b < r.len() implies r[a].0@ != r[b].0@ by {
        let a2 = if a < i { a } else { a + 1 };
        let b2 = if b < i { b } else { b + 1 };
        assert(r[a] == s[a2]);
        assert(r[b] == s[b2]);
    }
    if i == s.len() - 1 {
        assert(r =~= t);
        lemma_assoc_domain(t, k);
        if has_key(t, k) {
            let j = choose|j: int| 0 <= j < t.len() && t[j].0@ == k;
            assert(s[j].0@ == k);
        }
        assert(assoc_map(r) =~= assoc_map(s).remove(k));
    } else {
        assert(t[i] == s[i]);
        lemma_assoc_remove(t, i);
        assert(r.drop_last() =~= t.remove(i));
        assert(r.last() == s.last());
        assert(s.last().0@ != k);
        assert(assoc_map(r) =~= assoc_map(s).remove(k));
    }
}

pub proof fn lemma_assoc_prepend<K: View, V>(e: (K, V), s: Seq<(K, V)>)
    ensures
        assoc_map(seq![e] + s) == (if assoc_map(s).contains_key(e.0@) {
            assoc_map(s)
        } else {
            assoc_map(s).insert(e.0@, e.1)
        }),
    decreases s.len(),
{
    let p = seq![e] + s;
    if s.len() == 0 {
        assert(p.drop_last() =~= Seq::<(K, V)>::empty());
        assert(p.last() == e);
        assert(assoc_map(p.drop_last()) == Map::<K::V, V>::empty());
        assert(assoc_map(p) =~= Map::<K::V, V>::empty().insert(e.0@, e.1));
    } else {
        let t = s.drop_last();
        assert(p.drop_last() =~= seq![e] + t);
        assert(p.last() == s.last());
        lemma_assoc_prepend(e, t);
        if assoc_map(s).contains_key(e.0@) {
            assert(assoc_map(p) =~= assoc_map(s));
        } else {
            assert(assoc_map(p) =~= assoc_map(s).insert(e.0@, e.1));
        }
    }
}

} // verus!
