//! Association lists: vectors of `(key, value)` pairs in which no key occurs
//! twice, used for the keyed collections of the caches.
use vstd::prelude::*;

use crate::messages::{Handicap, SelectionId};

verus! {

/// The key of a runner within a market: its selection id and handicap.
pub type RunnerKey = (SelectionId, Option<Handicap>);

/// No key occurs twice.
pub open spec fn unique_keys<K, V>(s: Seq<(K, V)>) -> bool {
    forall|i: int, j: int| 0 <= i < j < s.len() ==> s[i].0 != s[j].0
}

/// Some entry has key `k`.
pub open spec fn has_key<K, V>(s: Seq<(K, V)>, k: K) -> bool {
    exists|i: int| 0 <= i < s.len() && s[i].0 == k
}

/// The position of an entry with key `k` (meaningful when `has_key(s, k)`).
pub open spec fn key_pos<K, V>(s: Seq<(K, V)>, k: K) -> int {
    choose|i: int| 0 <= i < s.len() && s[i].0 == k
}

/// The value kept for `k`.
pub open spec fn value_of<K, V>(s: Seq<(K, V)>, k: K) -> V {
    s[key_pos(s, k)].1
}

/// In a list without repeated keys, the entry with key `k` is unique.
pub proof fn lemma_key_pos<K, V>(s: Seq<(K, V)>, k: K, i: int)
    requires
        unique_keys(s),
        0 <= i < s.len(),
        s[i].0 == k,
    ensures
        has_key(s, k),
        key_pos(s, k) == i,
{
    let j = key_pos(s, k);
    if j < i {
        assert(s[j].0 != s[i].0);
    } else if i < j {
        assert(s[i].0 != s[j].0);
    }
}

/// The list with `k` set to `v`: an existing entry of `k` is overwritten in
/// place, otherwise the entry is appended.
pub open spec fn upsert<K, V>(s: Seq<(K, V)>, k: K, v: V) -> Seq<(K, V)> {
    if has_key(s, k) {
        s.update(key_pos(s, k), (k, v))
    } else {
        s.push((k, v))
    }
}

/// Appending an absent key keeps the keys unique.
pub proof fn lemma_push_unique<K, V>(s: Seq<(K, V)>, k: K, v: V)
    requires
        unique_keys(s),
        !has_key(s, k),
    ensures
        unique_keys(s.push((k, v))),
{
    let r = s.push((k, v));
    assert forall|i: int, j: int| 0 <= i < j < r.len() implies r[i].0 != r[j].0 by {
        if j == s.len() {
            assert(r[i] == s[i]);
        } else {
            assert(r[i] == s[i] && r[j] == s[j]);
        }
    }
}

/// Replacing the value at a position keeps the keys unique.
pub proof fn lemma_update_unique<K, V>(s: Seq<(K, V)>, i: int, v: V)
    requires
        unique_keys(s),
        0 <= i < s.len(),
    ensures
        unique_keys(s.update(i, (s[i].0, v))),
{
    let r = s.update(i, (s[i].0, v));
    assert forall|a: int, b: int| 0 <= a < b < r.len() implies r[a].0 != r[b].0 by {
        assert(r[a].0 == s[a].0 && r[b].0 == s[b].0);
    }
}

/// Setting a key keeps the keys unique.
pub proof fn lemma_upsert_unique<K, V>(s: Seq<(K, V)>, k: K, v: V)
    requires
        unique_keys(s),
    ensures
        unique_keys(upsert(s, k, v)),
{
    if has_key(s, k) {
        let i = key_pos(s, k);
        lemma_update_unique(s, i, v);
        assert(s.update(i, (s[i].0, v)) == s.update(i, (k, v)));
    } else {
        lemma_push_unique(s, k, v);
    }
}

/// After setting `k` to `v`, the list holds `v` for `k`.
pub proof fn lemma_upsert_value<K, V>(s: Seq<(K, V)>, k: K, v: V)
    requires
        unique_keys(s),
    ensures
        has_key(upsert(s, k, v), k),
        value_of(upsert(s, k, v), k) == v,
{
    lemma_upsert_unique(s, k, v);
    let r = upsert(s, k, v);
    if has_key(s, k) {
        let i = key_pos(s, k);
        lemma_key_pos(r, k, i);
    } else {
        lemma_key_pos(r, k, s.len() as int);
    }
}

/// Setting `k` leaves every other key, and what it holds, as it was.
pub proof fn lemma_upsert_other<K, V>(s: Seq<(K, V)>, k: K, v: V, other: K)
    requires
        unique_keys(s),
        other != k,
    ensures
        has_key(upsert(s, k, v), other) == has_key(s, other),
        has_key(s, other) ==> value_of(upsert(s, k, v), other) == value_of(s, other),
{
    lemma_upsert_unique(s, k, v);
    let r = upsert(s, k, v);
    if has_key(s, other) {
        let i = key_pos(s, other);
        assert(r[i] == s[i]);
        lemma_key_pos(r, other, i);
    }
    if has_key(r, other) {
        let i = key_pos(r, other);
        if i < s.len() {
            assert(r[i] == s[i]);
        }
    }
}

/// Whether two runner keys are equal.
pub fn same_runner_key(a: &RunnerKey, b: &RunnerKey) -> (r: bool)
    ensures
        r == (*a == *b),
{
    if a.0 != b.0 {
        return false;
    }
    match (a.1, b.1) {
        (Some(x), Some(y)) => x == y,
        (None, None) => true,
        _ => false,
    }
}

/// The position of the entry with runner key `k`, if any.
pub fn find_runner_key<V>(s: &Vec<(RunnerKey, V)>, k: &RunnerKey) -> (r: Option<usize>)
    ensures
        match r {
            Some(i) => i < s@.len() && s@[i as int].0 == *k,
            None => forall|j: int| 0 <= j < s@.len() ==> s@[j].0 != *k,
        },
{
    let mut i: usize = 0;
    while i < s.len()
        invariant
            0 <= i <= s@.len(),
            forall|j: int| 0 <= j < i ==> s@[j].0 != *k,
        decreases s@.len() - i,
    {
        if same_runner_key(&s[i].0, k) {
            return Some(i);
        }
        i = i + 1;
    }
    None
}

/// The position of the entry with integer key `k`, if any.
pub fn find_u64_key<V>(s: &Vec<(u64, V)>, k: u64) -> (r: Option<usize>)
    ensures
        match r {
            Some(i) => i < s@.len() && s@[i as int].0 == k,
            None => forall|j: int| 0 <= j < s@.len() ==> s@[j].0 != k,
        },
{
    let mut i: usize = 0;
    while i < s.len()
        invariant
            0 <= i <= s@.len(),
            forall|j: int| 0 <= j < i ==> s@[j].0 != k,
        decreases s@.len() - i,
    {
        if s[i].0 == k {
            return Some(i);
        }
        i = i + 1;
    }
    None
}

/// The position of the entry with string key `k`, if any.
pub fn find_string_key<V>(s: &Vec<(String, V)>, k: &String) -> (r: Option<usize>)
    ensures
        match r {
            Some(i) => i < s@.len() && s@[i as int].0@ == k@,
            None => forall|j: int| 0 <= j < s@.len() ==> s@[j].0@ != k@,
        },
{
    let mut i: usize = 0;
    while i < s.len()
        invariant
            0 <= i <= s@.len(),
            forall|j: int| 0 <= j < i ==> s@[j].0@ != k@,
        decreases s@.len() - i,
    {
        if s[i].0 == *k {
            return Some(i);
        }
        i = i + 1;
    }
    None
}

} // verus!
