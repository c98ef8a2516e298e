//! In-memory mirrors of reference tables, keyed by string.
//!
//! Storage is written first and the mirror second: `check_absent` is the
//! check made before a write, `finish_insert` and `finish_remove` apply what
//! storage confirmed, and `reload` replaces the mirror by a fresh read.

use vstd::prelude::*;
use crate::assoc::{assoc_map, keys_distinct, lemma_assoc_domain, lemma_assoc_prepend, lemma_assoc_push, lemma_assoc_remove, lemma_assoc_value};
use crate::errors::{is_conflict_on, write_error, DbError, StorageFailure};
use crate::models::RarityType;

verus! {

/// A mirror of a reference table: each key maps to one value.
#[derive(Debug)]
pub struct KeyedCache<V> {
    entries: Vec<(String, V)>,
}

impl<V> View for KeyedCache<V> {
    type V = Map<Seq<char>, V>;

    closed spec fn view(&self) -> Map<Seq<char>, V> {
        assoc_map(self.entries@)
    }
}

/// The mirror after a write of `(k, v)` that storage answered with `outcome`.
pub open spec fn after_insert<V>(m: Map<Seq<char>, V>, k: Seq<char>, v: V, outcome: Result<(), StorageFailure>) -> Map<Seq<char>, V> {
    if outcome is Ok {
        m.insert(k, v)
    } else {
        m
    }
}

/// The mirror after a delete of `k` that affected `rows` rows in storage.
pub open spec fn after_remove<V>(m: Map<Seq<char>, V>, k: Seq<char>, rows: u64) -> Map<Seq<char>, V> {
    if rows > 0 {
        m.remove(k)
    } else {
        m
    }
}

impl<V> KeyedCache<V> {
    #[verifier::type_invariant]
    spec fn keys_unique(self) -> bool {
        keys_distinct(self.entries@)
    }

    pub fn new() -> (r: KeyedCache<V>)
        ensures
            r@ == Map::<Seq<char>, V>::empty(),
    {
        KeyedCache { entries: Vec::new() }
    }

    /// Position of `key` among the entries, if it is there.
    fn position(&self, key: &String) -> (r: Option<usize>)
        ensures
            match r {
                Some(i) => i < self.entries@.len() && self.entries@[i as int].0@ == key@
                    && self@.contains_key(key@) && self@[key@] == self.entries@[i as int].1,
                None => !self@.contains_key(key@),
            },
    {
        proof {
            use_type_invariant(self);
            lemma_assoc_domain(self.entries@, key@);
        }
        let mut i: usize = 0;
        while i < self.entries.len()
            invariant
                0 <= i <= self.entries@.len(),
                keys_distinct(self.entries@),
                forall|k: int| 0 <= k < i ==> self.entries@[k].0@ != key@,
            decreases self.entries@.len() - i,
        {
            if self.entries[i].0 == *key {
                proof {
                    lemma_assoc_value(self.entries@, i as int);
                }
                return Some(i);
            }
            i = i + 1;
        }
        None
    }

    /// The value of `key`, if it is mapped.
    pub fn get(&self, key: &String) -> (r: Option<&V>)
        ensures
            r == (if self@.contains_key(key@) { Some(&self@[key@]) } else { None::<&V> }),
    {
        match self.position(key) {
            Some(i) => Some(&self.entries[i].1),
            None => None,
        }
    }

    pub fn contains(&self, key: &String) -> (r: bool)
        ensures
            r == self@.contains_key(key@),
    {
        self.position(key).is_some()
    }

    /// The check made under the write lock before storage is written: a key
    /// that is already mapped is a conflict.
    pub fn check_absent(&self, key: &String) -> (r: Result<(), DbError>)
        ensures
            r is Ok <==> !self@.contains_key(key@),
            r is Err ==> is_conflict_on(r->Err_0, key@),
    {
        if self.contains(key) {
            Err(DbError::Conflict(key.clone()))
        } else {
            Ok(())
        }
    }

    /// Applies a write of `(key, value)` that storage answered with `outcome`:
    /// the mirror changes only if storage accepted the write.
    pub fn finish_insert(&mut self, key: String, value: V, outcome: Result<(), StorageFailure>) -> (r: Result<(), DbError>)
        ensures
            final(self)@ == after_insert(old(self)@, key@, value, outcome),
            r is Ok <==> outcome is Ok,
            r is Err ==> write_error(outcome->Err_0, key@, r->Err_0),
    {
        proof {
            use_type_invariant(&*self);
        }
        match outcome {
            Ok(()) => {
                match self.position(&key) {
                    Some(i) => {
                        let mut entries: Vec<(String, V)> = Vec::new();
                        std::mem::swap(&mut entries, &mut self.entries);
                        proof {
                            lemma_assoc_remove(entries@, i as int);
                        }
                        let _ = entries.remove(i);
                        proof {
                            lemma_assoc_push(entries@, (key, value));
                            lemma_assoc_domain(entries@, key@);
                            assert forall|a: int, b: int| 0 <= a < b < entries@.push((key, value)).len()
                                implies entries@.push((key, value))[a].0@ != entries@.push((key, value))[b].0@ by {
                                if b == entries@.len() {
                                    assert(entries@[a].0@ != key@);
                                }
                            }
                            assert(assoc_map(entries@.push((key, value))) =~= old(self)@.insert(key@, value));
                        }
                        entries.push((key, value));
                        self.entries = entries;
                    },
                    None => {
                        let mut entries: Vec<(String, V)> = Vec::new();
                        std::mem::swap(&mut entries, &mut self.entries);
                        proof {
                            lemma_assoc_push(entries@, (key, value));
                            lemma_assoc_domain(entries@, key@);
                            assert forall|a: int, b: int| 0 <= a < b < entries@.push((key, value)).len()
                                implies entries@.push((key, value))[a].0@ != entries@.push((key, value))[b].0@ by {
                                if b == entries@.len() {
                                    assert(entries@[a].0@ != key@);
                                }
                            }
                        }
                        entries.push((key, value));
                        self.entries = entries;
                    },
                }
                Ok(())
            },
            Err(f) => Err(DbError::from_write_failure(f, &key)),
        }
    }

    /// Applies a delete of `key` that affected `rows_affected` rows in storage.
    pub fn finish_remove(&mut self, key: &String, rows_affected: u64)
        ensures
            final(self)@ == after_remove(old(self)@, key@, rows_affected),
    {
        proof {
            use_type_invariant(&*self);
        }
        if rows_affected > 0 {
            match self.position(key) {
                Some(i) => {
                    let mut entries: Vec<(String, V)> = Vec::new();
                    std::mem::swap(&mut entries, &mut self.entries);
                    proof {
                        lemma_assoc_remove(entries@, i as int);
                    }
                    let _ = entries.remove(i);
                    self.entries = entries;
                },
                None => {
                    assert(old(self)@.remove(key@) =~= old(self)@);
                },
            }
        }
    }

    /// A mirror of the rows read from storage; a later row for a key wins.
    pub fn from_rows(rows: Vec<(String, V)>) -> (r: KeyedCache<V>)
        ensures
            r@ == assoc_map(rows@),
    {
        let mut cache = KeyedCache::new();
        let ghost all = rows@;
        let mut rest = rows;
        while rest.len() > 0
            invariant
                rest@.len() <= all.len(),
                rest@ == all.subrange(0, rest@.len() as int),
                cache@ == assoc_map(all.subrange(rest@.len() as int, all.len() as int)),
            decreases rest@.len(),
        {
            let ghost n = rest@.len() as int;
            let (key, value) = rest.pop().unwrap();
            proof {
                assert(all[n - 1] == (key, value));
                assert(all.subrange(n - 1, all.len() as int) =~= seq![(key, value)] + all.subrange(n, all.len() as int));
                lemma_assoc_prepend((key, value), all.subrange(n, all.len() as int));
                assert(rest@ =~= all.subrange(0, n - 1));
            }
            if !cache.contains(&key) {
                let _ = cache.finish_insert(key, value, Ok(()));
            }
        }
        assert(all.subrange(0, all.len() as int) =~= all);
        cache
    }

    /// Replaces the mirror by a fresh read of storage.
    pub fn reload(&mut self, rows: Vec<(String, V)>)
        ensures
            final(self)@ == assoc_map(rows@),
    {
        *self = KeyedCache::from_rows(rows);
    }

    /// The entries, each key once: what a read of the whole table returns.
    pub fn snapshot(&self) -> (r: &Vec<(String, V)>)
        ensures
            assoc_map(r@) == self@,
            keys_distinct(r@),
    {
        proof {
            use_type_invariant(self);
        }
        &self.entries
    }
}

/// Whether the mirror must be reloaded from storage after a write that
/// storage answered with `outcome`: a write refused as a duplicate shows that
/// storage holds a key the mirror lacked, so the mirror is stale.
pub fn must_reload(outcome: &Result<(), StorageFailure>) -> (r: bool)
    ensures
        r == (*outcome == Err::<(), StorageFailure>(StorageFailure::UniqueViolation)),
{
    match outcome {
        Err(StorageFailure::UniqueViolation) => true,
        _ => false,
    }
}

/// The rarity type of a code: its mapping, or `Regular` where it has none.
pub open spec fn rarity_of(m: Map<Seq<char>, RarityType>, code: Seq<char>) -> RarityType {
    if m.contains_key(code) {
        m[code]
    } else {
        RarityType::Regular
    }
}

/// The canonical form of a name: its mapping, or the name itself where it has none.
pub open spec fn canonical_of(m: Map<Seq<char>, String>, s: Seq<char>) -> Seq<char> {
    if m.contains_key(s) {
        m[s]@
    } else {
        s
    }
}

/// Looks up the rarity type of `code`, `Regular` where it is unmapped.
pub fn lookup_rarity(cache: &KeyedCache<RarityType>, code: &String) -> (r: RarityType)
    ensures
        r == rarity_of(cache@, code@),
        !cache@.contains_key(code@) ==> r == RarityType::Regular,
{
    match cache.get(code) {
        Some(t) => *t,
        None => RarityType::Regular,
    }
}

/// Looks up the canonical form of `s`, `s` itself where it is unmapped.
pub fn lookup_canonical(cache: &KeyedCache<String>, s: &String) -> (r: String)
    ensures
        r@ == canonical_of(cache@, s@),
        !cache@.contains_key(s@) ==> r@ == s@,
{
    match cache.get(s) {
        Some(c) => c.clone(),
        None => s.clone(),
    }
}

} // verus!
