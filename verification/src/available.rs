//! Price ladders kept as key-sorted vectors, updated in place from the
//! incremental `[key, ...]` entries of the Stream API.
use vstd::prelude::*;

verus! {

/// An entry of a ladder update: it names a key, carries a value, and says
/// whether it removes the key instead of setting it.
pub trait UpdateSet: Sized {
    /// What the ladder keeps for a key.
    type Value;

    spec fn spec_key(&self) -> u64;

    spec fn spec_value(&self) -> Self::Value;

    /// Whether an entry carrying `v` removes its key from the ladder.
    spec fn is_removal(v: Self::Value) -> bool;

    fn value(&self) -> (v: Self::Value)
        ensures
            v == self.spec_value(),
    ;

    fn key(&self) -> (k: u64)
        ensures
            k == self.spec_key(),
    ;

    fn should_be_deleted(&self) -> (b: bool)
        ensures
            b == Self::is_removal(self.spec_value()),
    ;
}

/// Keys never decrease along the ladder.
pub open spec fn keys_sorted<V>(s: Seq<(u64, V)>) -> bool {
    forall|i: int, j: int| 0 <= i <= j < s.len() ==> s[i].0 <= s[j].0
}

/// Keys strictly increase along the ladder (no key occurs twice).
pub open spec fn keys_strictly_sorted<V>(s: Seq<(u64, V)>) -> bool {
    forall|i: int, j: int| 0 <= i < j < s.len() ==> s[i].0 < s[j].0
}

/// No entry of the ladder holds a value that would remove its key.
pub open spec fn all_live<T: UpdateSet>(s: Seq<(u64, T::Value)>) -> bool {
    forall|i: int| 0 <= i < s.len() ==> !T::is_removal(#[trigger] s[i].1)
}

/// The position of the first entry whose key is not below `key`.
pub open spec fn lower_bound<V>(s: Seq<(u64, V)>, key: u64) -> int
    decreases s.len(),
{
    if s.len() == 0 {
        0
    } else if s[0].0 < key {
        1 + lower_bound(s.drop_first(), key)
    } else {
        0
    }
}

/// The position of the first entry whose key is above `key`.
pub open spec fn upper_bound<V>(s: Seq<(u64, V)>, key: u64) -> int
    decreases s.len(),
{
    if s.len() == 0 {
        0
    } else if s[0].0 <= key {
        1 + upper_bound(s.drop_first(), key)
    } else {
        0
    }
}

/// One ladder update: the entry found for `key` is the first one at or above
/// it; an equal key is overwritten or dropped, otherwise a new entry is put
/// in key order unless the update is a removal.
pub open spec fn apply_update<V>(s: Seq<(u64, V)>, key: u64, value: V, remove: bool) -> Seq<
    (u64, V),
> {
    let p = lower_bound(s, key);
    if p < s.len() && s[p].0 == key {
        if remove {
            s.remove(p)
        } else {
            s.update(p, (key, value))
        }
    } else if remove {
        s
    } else {
        s.insert(p, (key, value))
    }
}

/// The ladder after applying `updates` in order.
pub open spec fn apply_updates<T: UpdateSet>(s: Seq<(u64, T::Value)>, updates: Seq<T>) -> Seq<
    (u64, T::Value),
>
    decreases updates.len(),
{
    if updates.len() == 0 {
        s
    } else {
        let u = updates.last();
        apply_update(
            apply_updates(s, updates.drop_last()),
            u.spec_key(),
            u.spec_value(),
            T::is_removal(u.spec_value()),
        )
    }
}

/// The ladder built from a full image: the entries that do not remove their
/// key, ordered by key, entries with equal keys kept in arrival order.
pub open spec fn sorted_image<T: UpdateSet>(prices: Seq<T>) -> Seq<(u64, T::Value)>
    decreases prices.len(),
{
    if prices.len() == 0 {
        Seq::empty()
    } else {
        let u = prices.last();
        let s = sorted_image(prices.drop_last());
        if T::is_removal(u.spec_value()) {
            s
        } else {
            s.insert(upper_bound(s, u.spec_key()), (u.spec_key(), u.spec_value()))
        }
    }
}

proof fn lemma_lower_bound<V>(s: Seq<(u64, V)>, key: u64)
    ensures
        0 <= lower_bound(s, key) <= s.len(),
        forall|i: int| 0 <= i < lower_bound(s, key) ==> s[i].0 < key,
        keys_sorted(s) ==> forall|i: int| lower_bound(s, key) <= i < s.len() ==> s[i].0 >= key,
    decreases s.len(),
{
    if s.len() > 0 {
        lemma_lower_bound(s.drop_first(), key);
        if s[0].0 < key {
            assert forall|i: int| 0 <= i < lower_bound(s, key) implies s[i].0 < key by {
                if i > 0 {
                    assert(s[i] == s.drop_first()[i - 1]);
                }
            }
            if keys_sorted(s) {
                assert forall|i: int| lower_bound(s, key) <= i < s.len() implies s[i].0 >= key by {
                    assert(s[i] == s.drop_first()[i - 1]);
                }
            }
        }
    }
}

proof fn lemma_upper_bound<V>(s: Seq<(u64, V)>, key: u64)
    ensures
        0 <= upper_bound(s, key) <= s.len(),
        forall|i: int| 0 <= i < upper_bound(s, key) ==> s[i].0 <= key,
        keys_sorted(s) ==> forall|i: int| upper_bound(s, key) <= i < s.len() ==> s[i].0 > key,
    decreases s.len(),
{
    if s.len() > 0 {
        lemma_upper_bound(s.drop_first(), key);
        if s[0].0 <= key {
            assert forall|i: int| 0 <= i < upper_bound(s, key) implies s[i].0 <= key by {
                if i > 0 {
                    assert(s[i] == s.drop_first()[i - 1]);
                }
            }
            if keys_sorted(s) {
                assert forall|i: int| upper_bound(s, key) <= i < s.len() implies s[i].0 > key by {
                    assert(s[i] == s.drop_first()[i - 1]);
                }
            }
        }
    }
}

/// A split point of a sorted ladder below/at-or-above `key` is its lower bound.
proof fn lemma_lower_bound_is<V>(s: Seq<(u64, V)>, key: u64, p: int)
    requires
        keys_sorted(s),
        0 <= p <= s.len(),
        forall|i: int| 0 <= i < p ==> s[i].0 < key,
        forall|i: int| p <= i < s.len() ==> s[i].0 >= key,
    ensures
        lower_bound(s, key) == p,
{
    lemma_lower_bound(s, key);
    let q = lower_bound(s, key);
    if q < p {
        assert(s[q].0 < key);
    } else if p < q {
        assert(s[p].0 < key);
    }
}

/// A split point of a sorted ladder at-or-below/above `key` is its upper bound.
proof fn lemma_upper_bound_is<V>(s: Seq<(u64, V)>, key: u64, p: int)
    requires
        keys_sorted(s),
        0 <= p <= s.len(),
        forall|i: int| 0 <= i < p ==> s[i].0 <= key,
        forall|i: int| p <= i < s.len() ==> s[i].0 > key,
    ensures
        upper_bound(s, key) == p,
{
    lemma_upper_bound(s, key);
    let q = upper_bound(s, key);
    if q < p {
        assert(s[q].0 <= key);
    } else if p < q {
        assert(s[p].0 <= key);
    }
}

proof fn lemma_apply_update_sorted<V>(s: Seq<(u64, V)>, key: u64, value: V, remove: bool)
    requires
        keys_sorted(s),
    ensures
        keys_sorted(apply_update(s, key, value, remove)),
        keys_strictly_sorted(s) ==> keys_strictly_sorted(apply_update(s, key, value, remove)),
{
    lemma_lower_bound(s, key);
    let p = lower_bound(s, key);
    let r = apply_update(s, key, value, remove);
    if p < s.len() && s[p].0 == key {
        if remove {
            assert(r == s.remove(p));
            assert forall|i: int, j: int| 0 <= i <= j < r.len() implies r[i].0 <= r[j].0 by {
                let i2 = if i < p { i } else { i + 1 };
                let j2 = if j < p { j } else { j + 1 };
                assert(r[i] == s[i2] && r[j] == s[j2]);
            }
            if keys_strictly_sorted(s) {
                assert forall|i: int, j: int| 0 <= i < j < r.len() implies r[i].0 < r[j].0 by {
                    let i2 = if i < p { i } else { i + 1 };
                    let j2 = if j < p { j } else { j + 1 };
                    assert(r[i] == s[i2] && r[j] == s[j2]);
                }
            }
        } else {
            assert(r == s.update(p, (key, value)));
            assert forall|i: int, j: int| 0 <= i <= j < r.len() implies r[i].0 <= r[j].0 by {
                assert(r[i].0 == s[i].0 && r[j].0 == s[j].0);
            }
            if keys_strictly_sorted(s) {
                assert forall|i: int, j: int| 0 <= i < j < r.len() implies r[i].0 < r[j].0 by {
                    assert(r[i].0 == s[i].0 && r[j].0 == s[j].0);
                }
            }
        }
    } else if !remove {
        assert(r == s.insert(p, (key, value)));
        assert forall|i: int, j: int| 0 <= i <= j < r.len() implies r[i].0 <= r[j].0 by {
            if i < p {
                assert(r[i] == s[i]);
            } else if i > p {
                assert(r[i] == s[i - 1]);
            }
            if j < p {
                assert(r[j] == s[j]);
            } else if j > p {
                assert(r[j] == s[j - 1]);
            }
        }
        if keys_strictly_sorted(s) {
            assert forall|i: int, j: int| 0 <= i < j < r.len() implies r[i].0 < r[j].0 by {
                if i < p {
                    assert(r[i] == s[i]);
                } else if i > p {
                    assert(r[i] == s[i - 1]);
                }
                if j < p {
                    assert(r[j] == s[j]);
                } else if j > p {
                    assert(r[j] == s[j - 1]);
                }
            }
        }
    }
}

proof fn lemma_apply_update_live<T: UpdateSet>(
    s: Seq<(u64, T::Value)>,
    key: u64,
    value: T::Value,
)
    requires
        all_live::<T>(s),
    ensures
        all_live::<T>(apply_update(s, key, value, T::is_removal(value))),
{
    lemma_lower_bound(s, key);
    let p = lower_bound(s, key);
    let r = apply_update(s, key, value, T::is_removal(value));
    assert forall|i: int| 0 <= i < r.len() implies !T::is_removal(#[trigger] r[i].1) by {
        if p < s.len() && s[p].0 == key {
            if T::is_removal(value) {
                let i2 = if i < p { i } else { i + 1 };
                assert(r[i] == s[i2]);
            } else if i != p {
                assert(r[i] == s[i]);
            }
        } else if !T::is_removal(value) {
            if i < p {
                assert(r[i] == s[i]);
            } else if i > p {
                assert(r[i] == s[i - 1]);
            }
        }
    }
}

/// Applying any updates keeps a ladder sorted, keeps it free of repeated keys
/// and keeps it free of removal values.
/// Updates keep a ladder in key order: a sorted ladder stays sorted, one
/// without repeated keys stays so, and one without removal values stays so.
pub proof fn law_updates_keep_ladder_sorted<T: UpdateSet>(
    s: Seq<(u64, T::Value)>,
    updates: Seq<T>,
)
    requires
        keys_sorted(s),
    ensures
        keys_sorted(apply_updates(s, updates)),
        keys_strictly_sorted(s) ==> keys_strictly_sorted(apply_updates(s, updates)),
        all_live::<T>(s) ==> all_live::<T>(apply_updates(s, updates)),
    decreases updates.len(),
{
    if updates.len() > 0 {
        let u = updates.last();
        law_updates_keep_ladder_sorted(s, updates.drop_last());
        let prev = apply_updates(s, updates.drop_last());
        lemma_apply_update_sorted(prev, u.spec_key(), u.spec_value(), T::is_removal(u.spec_value()));
        if all_live::<T>(s) {
            lemma_apply_update_live::<T>(prev, u.spec_key(), u.spec_value());
        }
    }
}

/// A ladder built from a full image is sorted and holds no removal value.
pub proof fn law_image_is_sorted<T: UpdateSet>(prices: Seq<T>)
    ensures
        keys_sorted(sorted_image(prices)),
        all_live::<T>(sorted_image(prices)),
{
    lemma_sorted_image_wf(prices);
}

proof fn lemma_sorted_image_wf<T: UpdateSet>(prices: Seq<T>)
    ensures
        keys_sorted(sorted_image(prices)),
        all_live::<T>(sorted_image(prices)),
    decreases prices.len(),
{
    if prices.len() > 0 {
        lemma_sorted_image_wf(prices.drop_last());
        let u = prices.last();
        let s = sorted_image(prices.drop_last());
        if !T::is_removal(u.spec_value()) {
            let k = u.spec_key();
            lemma_upper_bound(s, k);
            let p = upper_bound(s, k);
            let r = s.insert(p, (k, u.spec_value()));
            assert(r == sorted_image(prices));
            assert forall|i: int, j: int| 0 <= i <= j < r.len() implies r[i].0 <= r[j].0 by {
                if i < p {
                    assert(r[i] == s[i]);
                } else if i > p {
                    assert(r[i] == s[i - 1]);
                }
                if j < p {
                    assert(r[j] == s[j]);
                } else if j > p {
                    assert(r[j] == s[j - 1]);
                }
            }
            assert forall|i: int| 0 <= i < r.len() implies !T::is_removal(#[trigger] r[i].1) by {
                if i < p {
                    assert(r[i] == s[i]);
                } else if i > p {
                    assert(r[i] == s[i - 1]);
                }
            }
        }
    }
}


/// The entries of a full image that do not remove their key, as
/// `(key, value)` pairs in arrival order.
pub open spec fn live_entries<T: UpdateSet>(prices: Seq<T>) -> Seq<(u64, T::Value)>
    decreases prices.len(),
{
    if prices.len() == 0 {
        Seq::empty()
    } else {
        let u = prices.last();
        let s = live_entries(prices.drop_last());
        if T::is_removal(u.spec_value()) {
            s
        } else {
            s.push((u.spec_key(), u.spec_value()))
        }
    }
}

/// A ladder built from a full image holds exactly the image's entries that do
/// not remove their key, each as often as it arrives: it is a reordering of
/// them (sorted, by `law_image_is_sorted`).
pub proof fn law_image_is_permutation<T: UpdateSet>(prices: Seq<T>)
    ensures
        sorted_image(prices).to_multiset() == live_entries(prices).to_multiset(),
    decreases prices.len(),
{
    if prices.len() > 0 {
        law_image_is_permutation(prices.drop_last());
        let u = prices.last();
        let s = sorted_image(prices.drop_last());
        if !T::is_removal(u.spec_value()) {
            let e = (u.spec_key(), u.spec_value());
            lemma_upper_bound(s, u.spec_key());
            vstd::seq_lib::to_multiset_insert(s, upper_bound(s, u.spec_key()), e);
            vstd::seq_lib::to_multiset_build(live_entries(prices.drop_last()), e);
        }
    }
}

/// The ladder read as a map from key to value (the first entry of a key wins).
pub open spec fn book_map<V>(s: Seq<(u64, V)>) -> Map<u64, V> {
    Map::new(
        |k: u64| exists|i: int| 0 <= i < s.len() && s[i].0 == k,
        |k: u64| s[choose|i: int| 0 <= i < s.len() && s[i].0 == k].1,
    )
}

/// No two entries of `updates` name the same key.
pub open spec fn distinct_keys<T: UpdateSet>(updates: Seq<T>) -> bool {
    forall|i: int, j: int|
        0 <= i < j < updates.len() ==> updates[i].spec_key() != updates[j].spec_key()
}

proof fn lemma_sorted_image_keys<T: UpdateSet>(prices: Seq<T>)
    ensures
        forall|i: int|
            0 <= i < sorted_image(prices).len() ==> exists|j: int|
                0 <= j < prices.len() && prices[j].spec_key() == #[trigger] sorted_image(
                    prices,
                )[i].0,
    decreases prices.len(),
{
    if prices.len() > 0 {
        let q = prices.drop_last();
        lemma_sorted_image_keys(q);
        let s = sorted_image(q);
        let u = prices.last();
        let r = sorted_image(prices);
        assert forall|i: int| 0 <= i < r.len() implies exists|j: int|
            0 <= j < prices.len() && prices[j].spec_key() == #[trigger] r[i].0 by {
            if T::is_removal(u.spec_value()) {
                let j = choose|j: int| 0 <= j < q.len() && q[j].spec_key() == s[i].0;
                assert(prices[j] == q[j]);
            } else {
                lemma_upper_bound(s, u.spec_key());
                let p = upper_bound(s, u.spec_key());
                if i == p {
                    assert(prices[prices.len() - 1] == u);
                } else {
                    let i2 = if i < p { i } else { i - 1 };
                    assert(r[i] == s[i2]);
                    let j = choose|j: int| 0 <= j < q.len() && q[j].spec_key() == s[i2].0;
                    assert(prices[j] == q[j]);
                }
            }
        }
    }
}

/// When no two entries of a full image share a key, building the ladder from
/// the image gives the same ladder as applying the image as updates to an
/// empty ladder.
pub proof fn law_image_is_update_of_empty<T: UpdateSet>(prices: Seq<T>)
    requires
        distinct_keys(prices),
    ensures
        sorted_image(prices) == apply_updates(Seq::<(u64, T::Value)>::empty(), prices),
    decreases prices.len(),
{
    if prices.len() > 0 {
        let q = prices.drop_last();
        assert(distinct_keys(q)) by {
            assert forall|i: int, j: int| 0 <= i < j < q.len() implies q[i].spec_key()
                != q[j].spec_key() by {
                assert(q[i] == prices[i] && q[j] == prices[j]);
            }
        }
        law_image_is_update_of_empty(q);
        lemma_sorted_image_keys(q);
        lemma_sorted_image_wf(q);
        let s = sorted_image(q);
        let u = prices.last();
        let k = u.spec_key();
        assert forall|i: int| 0 <= i < s.len() implies s[i].0 != k by {
            let j = choose|j: int| 0 <= j < q.len() && q[j].spec_key() == #[trigger] s[i].0;
            assert(q[j] == prices[j]);
            assert(prices[prices.len() - 1] == u);
        }
        lemma_lower_bound(s, k);
        lemma_upper_bound(s, k);
        let lb = lower_bound(s, k);
        let ub = upper_bound(s, k);
        if lb < ub {
            assert(s[lb].0 <= k && s[lb].0 >= k);
        } else if ub < lb {
            assert(s[ub].0 < k && s[ub].0 > k);
        }
    }
}

proof fn lemma_book_map_entries<V>(s: Seq<(u64, V)>)
    requires
        keys_strictly_sorted(s),
    ensures
        forall|i: int|
            0 <= i < s.len() ==> book_map(s).dom().contains((#[trigger] s[i]).0) && book_map(s)[s[i].0]
                == s[i].1,
{
    let m = book_map(s);
    assert forall|i: int| 0 <= i < s.len() implies m.dom().contains((#[trigger] s[i]).0) && m[s[i].0]
        == s[i].1 by {
        let k = s[i].0;
        let c = choose|c: int| 0 <= c < s.len() && s[c].0 == k;
        if c < i {
            assert(s[c].0 < s[i].0);
        } else if i < c {
            assert(s[i].0 < s[c].0);
        }
    }
}

proof fn lemma_map_remove_at<V>(s: Seq<(u64, V)>, p: int)
    requires
        keys_strictly_sorted(s),
        keys_strictly_sorted(s.remove(p)),
        0 <= p < s.len(),
    ensures
        book_map(s.remove(p)) == book_map(s).remove(s[p].0),
{
    let r = s.remove(p);
    let key = s[p].0;
    lemma_book_map_entries(s);
    lemma_book_map_entries(r);
    let m = book_map(s);
    let rm = book_map(r);
    assert forall|k: u64| #[trigger] rm.dom().contains(k) <==> m.remove(key).dom().contains(k) by {
        if rm.dom().contains(k) {
            let i = choose|i: int| 0 <= i < r.len() && r[i].0 == k;
            let i2 = if i < p { i } else { i + 1 };
            assert(r[i] == s[i2]);
            if i2 < p {
                assert(s[i2].0 < s[p].0);
            } else {
                assert(s[p].0 < s[i2].0);
            }
        }
        if m.dom().contains(k) && k != key {
            let i = choose|i: int| 0 <= i < s.len() && s[i].0 == k;
            if i < p {
                assert(r[i] == s[i]);
            } else {
                assert(r[i - 1] == s[i]);
            }
        }
    }
    assert forall|k: u64| #[trigger] rm.dom().contains(k) implies rm[k] == m[k] by {
        let i = choose|i: int| 0 <= i < r.len() && r[i].0 == k;
        let i2 = if i < p { i } else { i + 1 };
        assert(r[i] == s[i2]);
    }
    assert(rm =~= m.remove(key));
}

proof fn lemma_map_update_at<V>(s: Seq<(u64, V)>, p: int, value: V)
    requires
        keys_strictly_sorted(s),
        0 <= p < s.len(),
    ensures
        book_map(s.update(p, (s[p].0, value))) == book_map(s).insert(s[p].0, value),
{
    let key = s[p].0;
    let r = s.update(p, (key, value));
    assert(keys_strictly_sorted(r)) by {
        assert forall|i: int, j: int| 0 <= i < j < r.len() implies r[i].0 < r[j].0 by {
            assert(r[i].0 == s[i].0 && r[j].0 == s[j].0);
        }
    }
    lemma_book_map_entries(s);
    lemma_book_map_entries(r);
    let m = book_map(s);
    let rm = book_map(r);
    assert forall|k: u64| #[trigger] rm.dom().contains(k) <==> m.insert(key, value).dom().contains(
        k,
    ) by {
        if rm.dom().contains(k) {
            let i = choose|i: int| 0 <= i < r.len() && r[i].0 == k;
            assert(r[i].0 == s[i].0);
        }
        if m.dom().contains(k) {
            let i = choose|i: int| 0 <= i < s.len() && s[i].0 == k;
            assert(r[i].0 == s[i].0);
        }
        if k == key {
            assert(r[p].0 == key);
        }
    }
    assert forall|k: u64| #[trigger] rm.dom().contains(k) implies rm[k] == m.insert(key, value)[k] by {
        let i = choose|i: int| 0 <= i < r.len() && r[i].0 == k;
        if i != p {
            assert(r[i] == s[i]);
        }
    }
    assert(rm =~= m.insert(key, value));
}

proof fn lemma_map_insert_at<V>(s: Seq<(u64, V)>, p: int, key: u64, value: V)
    requires
        keys_strictly_sorted(s),
        keys_strictly_sorted(s.insert(p, (key, value))),
        0 <= p <= s.len(),
        forall|i: int| 0 <= i < s.len() ==> s[i].0 != key,
    ensures
        book_map(s.insert(p, (key, value))) == book_map(s).insert(key, value),
{
    let r = s.insert(p, (key, value));
    lemma_book_map_entries(s);
    lemma_book_map_entries(r);
    let m = book_map(s);
    let rm = book_map(r);
    assert forall|k: u64| #[trigger] rm.dom().contains(k) <==> m.insert(key, value).dom().contains(
        k,
    ) by {
        if rm.dom().contains(k) && k != key {
            let i = choose|i: int| 0 <= i < r.len() && r[i].0 == k;
            if i < p {
                assert(r[i] == s[i]);
            } else if i > p {
                assert(r[i] == s[i - 1]);
            }
        }
        if m.dom().contains(k) {
            let i = choose|i: int| 0 <= i < s.len() && s[i].0 == k;
            if i < p {
                assert(r[i] == s[i]);
            } else {
                assert(r[i + 1] == s[i]);
            }
        }
        if k == key {
            assert(r[p].0 == key);
        }
    }
    assert forall|k: u64| #[trigger] rm.dom().contains(k) implies rm[k] == m.insert(key, value)[k] by {
        let i = choose|i: int| 0 <= i < r.len() && r[i].0 == k;
        if i < p {
            assert(r[i] == s[i]);
        } else if i > p {
            assert(r[i] == s[i - 1]);
        }
    }
    assert(rm =~= m.insert(key, value));
}

/// Read as a map, one update of a ladder without repeated keys sets or drops
/// exactly the key it names.
pub proof fn law_update_as_map<V>(s: Seq<(u64, V)>, key: u64, value: V, remove: bool)
    requires
        keys_strictly_sorted(s),
    ensures
        book_map(apply_update(s, key, value, remove)) == (if remove {
            book_map(s).remove(key)
        } else {
            book_map(s).insert(key, value)
        }),
{
    lemma_lower_bound(s, key);
    lemma_apply_update_sorted(s, key, value, remove);
    let p = lower_bound(s, key);
    if p < s.len() && s[p].0 == key {
        if remove {
            lemma_map_remove_at(s, p);
        } else {
            lemma_map_update_at(s, p, value);
        }
    } else {
        assert forall|i: int| 0 <= i < s.len() implies s[i].0 != key by {
            if i > p {
                assert(s[p].0 < s[i].0);
            }
        }
        if remove {
            lemma_book_map_entries(s);
            let m = book_map(s);
            assert(!m.dom().contains(key));
            assert(m.remove(key) =~= m);
        } else {
            lemma_map_insert_at(s, p, key, value);
        }
    }
}

/// A map after ladder updates applied in order: each update sets its key to
/// its value, or drops the key when it is a removal.
pub open spec fn map_after_updates<T: UpdateSet>(m: Map<u64, T::Value>, updates: Seq<T>) -> Map<
    u64,
    T::Value,
>
    decreases updates.len(),
{
    if updates.len() == 0 {
        m
    } else {
        let prev = map_after_updates(m, updates.drop_last());
        let u = updates.last();
        if T::is_removal(u.spec_value()) {
            prev.remove(u.spec_key())
        } else {
            prev.insert(u.spec_key(), u.spec_value())
        }
    }
}

/// Read as a map, a ladder without repeated keys after a batch of updates is
/// the map after setting or dropping each key in turn.
pub proof fn law_updates_as_map<T: UpdateSet>(s: Seq<(u64, T::Value)>, updates: Seq<T>)
    requires
        keys_strictly_sorted(s),
    ensures
        book_map(apply_updates(s, updates)) == map_after_updates(book_map(s), updates),
    decreases updates.len(),
{
    if updates.len() > 0 {
        let prefix = updates.drop_last();
        law_updates_as_map(s, prefix);
        assert(keys_sorted(s));
        law_updates_keep_ladder_sorted(s, prefix);
        let u = updates.last();
        law_update_as_map(
            apply_updates(s, prefix),
            u.spec_key(),
            u.spec_value(),
            T::is_removal(u.spec_value()),
        );
    }
}

/// Whether some update of `updates` names key `k`.
pub open spec fn names_key<T: UpdateSet>(updates: Seq<T>, k: u64) -> bool {
    exists|i: int| 0 <= i < updates.len() && updates[i].spec_key() == k
}

/// Two maps hold the same thing for key `k`: both nothing, or the same value.
pub open spec fn agree_at<V>(a: Map<u64, V>, b: Map<u64, V>, k: u64) -> bool {
    &&& a.dom().contains(k) == b.dom().contains(k)
    &&& a.dom().contains(k) ==> a[k] == b[k]
}

/// What a batch of updates leaves at a key it names does not depend on the
/// map it starts from; a key it does not name keeps what it held.
proof fn lemma_map_after_updates_at<T: UpdateSet>(
    m1: Map<u64, T::Value>,
    m2: Map<u64, T::Value>,
    updates: Seq<T>,
    k: u64,
)
    ensures
        names_key(updates, k) ==> agree_at(
            map_after_updates(m1, updates),
            map_after_updates(m2, updates),
            k,
        ),
        !names_key(updates, k) ==> agree_at(map_after_updates(m1, updates), m1, k),
    decreases updates.len(),
{
    if updates.len() > 0 {
        let p = updates.drop_last();
        let n = updates.len() - 1;
        lemma_map_after_updates_at(m1, m2, p, k);
        let u = updates.last();
        if u.spec_key() != k {
            if names_key(updates, k) {
                let i = choose|i: int| 0 <= i < updates.len() && updates[i].spec_key() == k;
                assert(i != n);
                assert(p[i] == updates[i]);
            }
            if names_key(p, k) {
                let i = choose|i: int| 0 <= i < p.len() && p[i].spec_key() == k;
                assert(p[i] == updates[i]);
            }
        } else {
            assert(updates[n] == u);
        }
    }
}

/// Applying a batch of updates to a map twice gives what applying it once
/// gives.
proof fn lemma_map_after_updates_idempotent<T: UpdateSet>(m: Map<u64, T::Value>, updates: Seq<T>)
    ensures
        map_after_updates(map_after_updates(m, updates), updates) == map_after_updates(m, updates),
{
    let once = map_after_updates(m, updates);
    let twice = map_after_updates(once, updates);
    assert forall|k: u64| agree_at(twice, once, k) by {
        lemma_map_after_updates_at(once, m, updates, k);
    }
    assert forall|k: u64| #[trigger] twice.dom().contains(k) <==> once.dom().contains(k) by {
        assert(agree_at(twice, once, k));
    }
    assert forall|k: u64| #[trigger] twice.dom().contains(k) implies twice[k] == once[k] by {
        assert(agree_at(twice, once, k));
    }
    assert(twice =~= once);
}

/// Two ladders without repeated keys that read as the same map are the same
/// ladder.
proof fn lemma_ladder_determined_by_map<V>(s: Seq<(u64, V)>, t: Seq<(u64, V)>)
    requires
        keys_strictly_sorted(s),
        keys_strictly_sorted(t),
        book_map(s) == book_map(t),
    ensures
        s == t,
    decreases s.len(),
{
    lemma_book_map_entries(s);
    lemma_book_map_entries(t);
    if s.len() == 0 || t.len() == 0 {
        if s.len() > 0 {
            assert(book_map(s).dom().contains(s[0].0));
        }
        if t.len() > 0 {
            assert(book_map(t).dom().contains(t[0].0));
        }
        assert(s =~= t);
    } else {
        let ls = s.len() - 1;
        let lt = t.len() - 1;
        let ks = s[ls].0;
        let kt = t[lt].0;
        assert(book_map(t).dom().contains(ks));
        let j = choose|j: int| 0 <= j < t.len() && t[j].0 == ks;
        assert(ks <= kt) by {
            if j < lt {
                assert(t[j].0 < t[lt].0);
            }
        }
        assert(book_map(s).dom().contains(kt));
        let i = choose|i: int| 0 <= i < s.len() && s[i].0 == kt;
        assert(kt <= ks) by {
            if i < ls {
                assert(s[i].0 < s[ls].0);
            }
        }
        assert(s[ls] == t[lt]);
        let s1 = s.remove(ls);
        let t1 = t.remove(lt);
        assert(s1 =~= s.drop_last());
        assert(t1 =~= t.drop_last());
        assert(keys_strictly_sorted(s1)) by {
            assert forall|a: int, b: int| 0 <= a < b < s1.len() implies s1[a].0 < s1[b].0 by {
                assert(s1[a] == s[a] && s1[b] == s[b]);
            }
        }
        assert(keys_strictly_sorted(t1)) by {
            assert forall|a: int, b: int| 0 <= a < b < t1.len() implies t1[a].0 < t1[b].0 by {
                assert(t1[a] == t[a] && t1[b] == t[b]);
            }
        }
        lemma_map_remove_at(s, ls);
        lemma_map_remove_at(t, lt);
        lemma_ladder_determined_by_map(s1, t1);
        assert(s =~= s1.push(s[ls]));
        assert(t =~= t1.push(t[lt]));
    }
}

/// Updates are idempotent: applying the same batch of updates a second time
/// to a ladder without repeated keys changes nothing.
pub proof fn law_update_is_idempotent<T: UpdateSet>(s: Seq<(u64, T::Value)>, updates: Seq<T>)
    requires
        keys_strictly_sorted(s),
    ensures
        apply_updates(apply_updates(s, updates), updates) == apply_updates(s, updates),
{
    let once = apply_updates(s, updates);
    law_updates_keep_ladder_sorted(s, updates);
    law_updates_keep_ladder_sorted(once, updates);
    law_updates_as_map(s, updates);
    law_updates_as_map(once, updates);
    lemma_map_after_updates_idempotent(book_map(s), updates);
    lemma_ladder_determined_by_map(apply_updates(once, updates), once);
}

/// The position of the first entry whose key is not below `key`.
fn lower_bound_index<V>(book: &Vec<(u64, V)>, key: u64) -> (p: usize)
    requires
        keys_sorted(book@),
    ensures
        p == lower_bound(book@, key),
        p <= book@.len(),
{
    let mut lo: usize = 0;
    let mut hi: usize = book.len();
    while lo < hi
        invariant
            0 <= lo <= hi <= book@.len(),
            keys_sorted(book@),
            forall|i: int| 0 <= i < lo ==> book@[i].0 < key,
            forall|i: int| hi <= i < book@.len() ==> book@[i].0 >= key,
        decreases hi - lo,
    {
        let mid: usize = lo + (hi - lo) / 2;
        if book[mid].0 < key {
            lo = mid + 1;
        } else {
            hi = mid;
        }
    }
    proof {
        lemma_lower_bound_is(book@, key, lo as int);
    }
    lo
}

/// The position of the first entry whose key is above `key`.
fn upper_bound_index<V>(book: &Vec<(u64, V)>, key: u64) -> (p: usize)
    requires
        keys_sorted(book@),
    ensures
        p == upper_bound(book@, key),
        p <= book@.len(),
{
    let mut lo: usize = 0;
    let mut hi: usize = book.len();
    while lo < hi
        invariant
            0 <= lo <= hi <= book@.len(),
            keys_sorted(book@),
            forall|i: int| 0 <= i < lo ==> book@[i].0 <= key,
            forall|i: int| hi <= i < book@.len() ==> book@[i].0 > key,
        decreases hi - lo,
    {
        let mid: usize = lo + (hi - lo) / 2;
        if book[mid].0 <= key {
            lo = mid + 1;
        } else {
            hi = mid;
        }
    }
    proof {
        lemma_upper_bound_is(book@, key, lo as int);
    }
    lo
}

/// Data structure to hold prices/traded amount: a vector of `(key, value)`
/// entries sorted by key.
#[derive(Debug, PartialEq, Eq)]
pub struct Available<T: UpdateSet> {
    pub book: Vec<(u64, T::Value)>,
}

impl<T: UpdateSet> Available<T> {
    /// The ladder is sorted by key and holds no removal value.
    pub open spec fn wf(&self) -> bool {
        keys_sorted(self.book@) && all_live::<T>(self.book@)
    }

    /// Builds a ladder from a full image: entries that remove their key are
    /// left out, the rest are ordered by key.
    pub fn new(prices: &[T]) -> (r: Self)
        ensures
            r.book@ == sorted_image(prices@),
            r.wf(),
    {
        let mut book: Vec<(u64, T::Value)> = Vec::new();
        let mut i: usize = 0;
        while i < prices.len()
            invariant
                0 <= i <= prices@.len(),
                book@ == sorted_image(prices@.take(i as int)),
                keys_sorted(book@),
            decreases prices@.len() - i,
        {
            proof {
                assert(prices@.take(i + 1).drop_last() == prices@.take(i as int));
                lemma_sorted_image_wf(prices@.take(i + 1));
            }
            let p = &prices[i];
            if !p.should_be_deleted() {
                let k = p.key();
                let pos = upper_bound_index(&book, k);
                book.insert(pos, (k, p.value()));
            }
            i = i + 1;
        }
        proof {
            assert(prices@.take(prices@.len() as int) == prices@);
            lemma_sorted_image_wf(prices@);
        }
        Available { book }
    }

    /// Applies the entries of `book_update` in order: an entry with the key of
    /// an existing entry replaces its value or, if it is a removal, drops it; an
    /// entry with a new key is put in key order unless it is a removal.
    pub fn update(&mut self, book_update: &[T])
        requires
            keys_sorted(old(self).book@),
        ensures
            final(self).book@ == apply_updates(old(self).book@, book_update@),
            keys_sorted(final(self).book@),
            keys_strictly_sorted(old(self).book@) ==> keys_strictly_sorted(final(self).book@),
            old(self).wf() ==> final(self).wf(),
    {
        let ghost start = self.book@;
        let mut i: usize = 0;
        while i < book_update.len()
            invariant
                0 <= i <= book_update@.len(),
                keys_sorted(start),
                self.book@ == apply_updates(start, book_update@.take(i as int)),
            decreases book_update@.len() - i,
        {
            proof {
                assert(book_update@.take(i + 1).drop_last() == book_update@.take(i as int));
                law_updates_keep_ladder_sorted(start, book_update@.take(i as int));
            }
            let prices = &book_update[i];
            let key = prices.key();
            let idx = lower_bound_index(&self.book, key);
            if idx < self.book.len() && self.book[idx].0 == key {
                if prices.should_be_deleted() {
                    self.book.remove(idx);
                } else {
                    self.book.set(idx, (key, prices.value()));
                }
            } else if !prices.should_be_deleted() {
                self.book.insert(idx, (key, prices.value()));
            }
            i = i + 1;
        }
        proof {
            assert(book_update@.take(book_update@.len() as int) == book_update@);
            law_updates_keep_ladder_sorted(start, book_update@);
        }
    }

    /// Empties the ladder.
    pub fn clear(&mut self)
        ensures
            final(self).book@ == Seq::<(u64, T::Value)>::empty(),
    {
        self.book.clear();
    }
}

} // verus!
