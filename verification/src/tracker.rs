//! Stream trackers: the market and order caches of a stream, and the stream
//! state that dispatches change messages to them.
use vstd::prelude::*;

use crate::keyed::{
    find_string_key, has_key, key_pos, lemma_key_pos, lemma_push_unique, lemma_update_unique,
    lemma_upsert_other, lemma_upsert_unique, lemma_upsert_value, unique_keys, upsert, value_of,
};
use crate::clock::now_millis;
use crate::market_book::{MarketBookCache, MarketBookView, market_closed, market_with_change};
use crate::messages::{
    ChangeType, Clock, DatasetChangeMessage, MarketChange, MarketChangeMessage, OrderChangeMessage,
    OrderMarketChange, Timestamp,
};
use crate::orderbook::{OrderBookCache, OrderBookView, order_book_with_change};

verus! {

/// How long a closed cache is kept after its last change: eight hours, in
/// milliseconds.
pub const MAX_CACHE_AGE_MS: i64 = 28_800_000;

/// Whether a change message created a cache or carried a full image.
pub struct HasFullImage(pub bool);

/// Caches updated by a change message.
pub enum Updates<'a> {
    Market(Vec<&'a MarketBookCache>),
    Order(Vec<&'a OrderBookCache>),
}

/// The clock's reading in milliseconds since the Unix epoch, or `fallback` when
/// the clock cannot be read as one (it reads before the epoch).
fn time_or(fallback: Timestamp) -> Timestamp {
    match now_millis() {
        Some(t) => t,
        None => fallback,
    }
}

/// Market books keyed by market id, as mathematical values.
pub type MarketsView = Seq<(Seq<char>, MarketBookView)>;

/// Order books keyed by market id, as mathematical values.
pub type OrderMarketsView = Seq<(Seq<char>, OrderBookView)>;

/// `x + n`, capped at the largest counter value.
pub open spec fn saturating_count(x: u64, n: nat) -> u64 {
    if x + n > u64::MAX {
        u64::MAX
    } else {
        (x + n) as u64
    }
}

/// `x` incremented `n` times, wrapping to zero past the largest value.
pub open spec fn wrapping_count(x: u64, n: nat) -> u64
    decreases n,
{
    if n == 0 {
        x
    } else {
        let y = wrapping_count(x, (n - 1) as nat);
        if y == u64::MAX {
            0
        } else {
            (y + 1) as u64
        }
    }
}

/// A new, empty, active market book.
pub open spec fn new_market_view(id: Seq<char>, publish_time: Timestamp) -> MarketBookView {
    MarketBookView {
        market_id: id,
        publish_time,
        active: true,
        total_matched: 0,
        market_definition: None,
        runners: Seq::empty(),
    }
}

/// The market books after one market change: a change without market id is
/// ignored; a change of an unknown market, or a full image, starts from a new
/// market book; the change is then applied to the book. The flag tells whether
/// the book was started anew.
pub open spec fn markets_with_change(st: MarketsView, mc: MarketChange, pt: Timestamp) -> (
    MarketsView,
    bool,
) {
    match mc.market_id {
        None => (st, false),
        Some(id) => {
            let k = id@;
            let fresh = !has_key(st, k) || mc.full_image == Some(true);
            let base = if fresh {
                new_market_view(k, pt)
            } else {
                value_of(st, k)
            };
            (upsert(st, k, market_with_change(base, mc, pt, true)), fresh)
        },
    }
}

/// The market books after market changes applied in order, whether any book
/// was started anew, and the market ids of the changes, in order.
pub open spec fn markets_with_changes(st: MarketsView, mcs: Seq<MarketChange>, pt: Timestamp) -> (
    MarketsView,
    bool,
    Seq<Seq<char>>,
)
    decreases mcs.len(),
{
    if mcs.len() == 0 {
        (st, false, Seq::empty())
    } else {
        let prev = markets_with_changes(st, mcs.drop_last(), pt);
        let mc = mcs.last();
        let next = markets_with_change(prev.0, mc, pt);
        let ids = match mc.market_id {
            Some(id) => prev.2.push(id@),
            None => prev.2,
        };
        (next.0, prev.1 || next.1, ids)
    }
}

/// A full image of a market does not depend on what the cache held for it:
/// from any two caches, the change gives the book that a new market book
/// updated with the change would be.
pub proof fn law_full_image_replaces_market(
    st1: MarketsView,
    st2: MarketsView,
    mc: MarketChange,
    pt: Timestamp,
)
    requires
        unique_keys(st1),
        unique_keys(st2),
        mc.market_id is Some,
        mc.full_image == Some(true),
    ensures
        ({
            let k = mc.market_id.unwrap()@;
            let fresh = market_with_change(new_market_view(k, pt), mc, pt, true);
            &&& has_key(markets_with_change(st1, mc, pt).0, k)
            &&& value_of(markets_with_change(st1, mc, pt).0, k) == fresh
            &&& value_of(markets_with_change(st2, mc, pt).0, k) == fresh
        }),
{
    let k = mc.market_id.unwrap()@;
    let fresh = market_with_change(new_market_view(k, pt), mc, pt, true);
    lemma_upsert_value(st1, k, fresh);
    lemma_upsert_value(st2, k, fresh);
}

/// A market change touches only the book of its own market: every other
/// market stays in the cache, or out of it, with the book it had.
pub proof fn law_change_keeps_other_markets(
    st: MarketsView,
    mc: MarketChange,
    pt: Timestamp,
    other: Seq<char>,
)
    requires
        unique_keys(st),
        mc.market_id matches Some(id) ==> id@ != other,
    ensures
        has_key(markets_with_change(st, mc, pt).0, other) == has_key(st, other),
        has_key(st, other) ==> value_of(markets_with_change(st, mc, pt).0, other) == value_of(
            st,
            other,
        ),
{
    if let Some(id) = mc.market_id {
        let r = markets_with_change(st, mc, pt);
        let k = id@;
        let fresh = !has_key(st, k) || mc.full_image == Some(true);
        let base = if fresh {
            new_market_view(k, pt)
        } else {
            value_of(st, k)
        };
        lemma_upsert_other(st, k, market_with_change(base, mc, pt, true), other);
    }
}

/// What a market stream tracker holds, as a mathematical value.
#[verifier::ext_equal]
pub struct MarketTrackerView {
    pub market_state: MarketsView,
    pub updates_processed: u64,
}

impl MarketTrackerView {
    /// No market id occurs twice, every book is well formed and is kept under
    /// its own market id.
    pub open spec fn wf(self) -> bool {
        &&& unique_keys(self.market_state)
        &&& forall|i: int|
            0 <= i < self.market_state.len() ==> (#[trigger] self.market_state[i]).1.wf()
                && self.market_state[i].1.market_id == self.market_state[i].0
    }
}

/// A market change message applied to a market tracker: the new tracker, the
/// books of the changed markets in the order of the changes (absent when the
/// message has no publish time or no data), and whether a book was started
/// anew.
pub open spec fn market_process(t: MarketTrackerView, msg: MarketChangeMessage) -> (
    MarketTrackerView,
    Option<Seq<MarketBookView>>,
    bool,
) {
    match msg.publish_time {
        None => (t, None, false),
        Some(pt) => match msg.data {
            None => (t, None, false),
            Some(d) => {
                let (st, img, ids) = markets_with_changes(t.market_state, d@, pt);
                (
                    MarketTrackerView {
                        market_state: st,
                        updates_processed: saturating_count(t.updates_processed, ids.len()),
                    },
                    Some(ids.map_values(|id: Seq<char>| value_of(st, id))),
                    img,
                )
            },
        },
    }
}

/// Whether a cache that counts as closed and was last changed at `changed` is
/// kept at `publish_time`.
pub open spec fn keep_cache(closed: bool, changed: Timestamp, publish_time: Timestamp) -> bool {
    !(closed && publish_time - changed > MAX_CACHE_AGE_MS)
}

/// The market books kept at `publish_time`, in order.
pub open spec fn markets_kept(st: MarketsView, publish_time: Timestamp) -> MarketsView
    decreases st.len(),
{
    if st.len() == 0 {
        st
    } else {
        let prev = markets_kept(st.drop_last(), publish_time);
        let m = st.last().1;
        if keep_cache(market_closed(m), m.publish_time, publish_time) {
            prev.push(st.last())
        } else {
            prev
        }
    }
}

/// Whether an order book counts as closed.
pub open spec fn order_book_closed(b: OrderBookView) -> bool {
    b.closed
}

/// The order books kept at `publish_time`, in order.
pub open spec fn orders_kept(st: OrderMarketsView, publish_time: Timestamp) -> OrderMarketsView
    decreases st.len(),
{
    if st.len() == 0 {
        st
    } else {
        let prev = orders_kept(st.drop_last(), publish_time);
        let b = st.last().1;
        if keep_cache(order_book_closed(b), b.publish_time, publish_time) {
            prev.push(st.last())
        } else {
            prev
        }
    }
}

/// A cleanup keeps the book of a market exactly when `keep_cache` holds for
/// it, and keeps it unchanged: open markets, and closed ones changed within eight
/// hours of the cleanup's time, survive; older closed ones are dropped.
pub proof fn law_cleanup_keeps_exactly_fresh_markets(st: MarketsView, publish_time: Timestamp, k: Seq<char>)
    requires
        unique_keys(st),
    ensures
        unique_keys(markets_kept(st, publish_time)),
        has_key(markets_kept(st, publish_time), k) <==> has_key(st, k) && keep_cache(
            market_closed(value_of(st, k)),
            value_of(st, k).publish_time,
            publish_time,
        ),
        has_key(markets_kept(st, publish_time), k) ==> value_of(markets_kept(st, publish_time), k)
            == value_of(st, k),
    decreases st.len(),
{
    if st.len() > 0 {
        let prefix = st.drop_last();
        let last = st.last();
        assert(unique_keys(prefix)) by {
            assert forall|a: int, b: int| 0 <= a < b < prefix.len() implies prefix[a].0
                != prefix[b].0 by {
                assert(prefix[a] == st[a] && prefix[b] == st[b]);
            }
        }
        assert(!has_key(prefix, last.0)) by {
            if has_key(prefix, last.0) {
                let i = key_pos(prefix, last.0);
                assert(st[i] == prefix[i]);
                assert(st[st.len() - 1] == last);
            }
        }
        assert(st =~= upsert(prefix, last.0, last.1));
        law_cleanup_keeps_exactly_fresh_markets(prefix, publish_time, k);
        law_cleanup_keeps_exactly_fresh_markets(prefix, publish_time, last.0);
        let prev = markets_kept(prefix, publish_time);
        let keep_last = keep_cache(market_closed(last.1), last.1.publish_time, publish_time);
        if keep_last {
            assert(markets_kept(st, publish_time) =~= upsert(prev, last.0, last.1));
            lemma_upsert_unique(prev, last.0, last.1);
        }
        if k == last.0 {
            lemma_upsert_value(prefix, last.0, last.1);
            if keep_last {
                lemma_upsert_value(prev, last.0, last.1);
            }
        } else {
            lemma_upsert_other(prefix, last.0, last.1, k);
            if keep_last {
                lemma_upsert_other(prev, last.0, last.1, k);
            }
        }
    }
}

/// A cleanup keeps the order book of a market exactly when `keep_cache` holds for
/// it, and keeps it unchanged: open order books, and closed ones changed within eight
/// hours of the cleanup's time, survive; older closed ones are dropped.
pub proof fn law_cleanup_keeps_exactly_fresh_order_books(st: OrderMarketsView, publish_time: Timestamp, k: Seq<char>)
    requires
        unique_keys(st),
    ensures
        unique_keys(orders_kept(st, publish_time)),
        has_key(orders_kept(st, publish_time), k) <==> has_key(st, k) && keep_cache(
            order_book_closed(value_of(st, k)),
            value_of(st, k).publish_time,
            publish_time,
        ),
        has_key(orders_kept(st, publish_time), k) ==> value_of(orders_kept(st, publish_time), k)
            == value_of(st, k),
    decreases st.len(),
{
    if st.len() > 0 {
        let prefix = st.drop_last();
        let last = st.last();
        assert(unique_keys(prefix)) by {
            assert forall|a: int, b: int| 0 <= a < b < prefix.len() implies prefix[a].0
                != prefix[b].0 by {
                assert(prefix[a] == st[a] && prefix[b] == st[b]);
            }
        }
        assert(!has_key(prefix, last.0)) by {
            if has_key(prefix, last.0) {
                let i = key_pos(prefix, last.0);
                assert(st[i] == prefix[i]);
                assert(st[st.len() - 1] == last);
            }
        }
        assert(st =~= upsert(prefix, last.0, last.1));
        law_cleanup_keeps_exactly_fresh_order_books(prefix, publish_time, k);
        law_cleanup_keeps_exactly_fresh_order_books(prefix, publish_time, last.0);
        let prev = orders_kept(prefix, publish_time);
        let keep_last = keep_cache(order_book_closed(last.1), last.1.publish_time, publish_time);
        if keep_last {
            assert(orders_kept(st, publish_time) =~= upsert(prev, last.0, last.1));
            lemma_upsert_unique(prev, last.0, last.1);
        }
        if k == last.0 {
            lemma_upsert_value(prefix, last.0, last.1);
            if keep_last {
                lemma_upsert_value(prev, last.0, last.1);
            }
        } else {
            lemma_upsert_other(prefix, last.0, last.1, k);
            if keep_last {
                lemma_upsert_other(prev, last.0, last.1, k);
            }
        }
    }
}

/// The caches of the market stream.
#[derive(Debug)]
pub struct MarketStreamTracker {
    market_state: Vec<(String, MarketBookCache)>,
    updates_processed: u64,
}

/// The market books of a vector of keyed market books, as mathematical values.
pub open spec fn markets_view(v: Seq<(String, MarketBookCache)>) -> MarketsView {
    v.map_values(|e: (String, MarketBookCache)| (e.0@, e.1@))
}

/// The views of an optional vector of market books.
pub open spec fn opt_market_views(v: Option<Vec<MarketBookCache>>) -> Option<Seq<MarketBookView>> {
    match v {
        Some(x) => Some(x@.map_values(|m: MarketBookCache| m@)),
        None => None,
    }
}

/// The views of an optional vector of order books.
pub open spec fn opt_order_views(v: Option<Vec<OrderBookCache>>) -> Option<Seq<OrderBookView>> {
    match v {
        Some(x) => Some(x@.map_values(|m: OrderBookCache| m@)),
        None => None,
    }
}

/// Whether a cache is kept at `publish_time`.
fn keep(closed: bool, changed: Timestamp, publish_time: Timestamp) -> (r: bool)
    ensures
        r == keep_cache(closed, changed, publish_time),
{
    let age: i128 = publish_time as i128 - changed as i128;
    !(closed && age > MAX_CACHE_AGE_MS as i128)
}

impl View for MarketStreamTracker {
    type V = MarketTrackerView;

    closed spec fn view(&self) -> MarketTrackerView {
        MarketTrackerView {
            market_state: markets_view(self.market_state@),
            updates_processed: self.updates_processed,
        }
    }
}

impl MarketStreamTracker {
    /// No market id occurs twice and every book is well formed.
    pub open spec fn wf(&self) -> bool {
        self@.wf()
    }

    /// An empty tracker.
    pub fn new() -> (r: Self)
        ensures
            r@ == (MarketTrackerView { market_state: Seq::empty(), updates_processed: 0 }),
            r.wf(),
    {
        let r = MarketStreamTracker { market_state: Vec::new(), updates_processed: 0 };
        proof {
            assert(markets_view(r.market_state@) =~= Seq::empty());
        }
        r
    }

    /// Applies a market change message: see `market_process`.
    pub fn process(&mut self, msg: MarketChangeMessage) -> (r: (
        Option<Vec<MarketBookCache>>,
        HasFullImage,
    ))
        requires
            old(self).wf(),
        ensures
            final(self).wf(),
            (final(self)@, opt_market_views(r.0), r.1.0) == market_process(old(self)@, msg),
    {
        let ghost m = msg;
        let publish_time = match msg.publish_time {
            Some(pt) => pt,
            None => {
                return (None, HasFullImage(false));
            },
        };
        let mut data = match msg.data {
            Some(d) => d,
            None => {
                return (None, HasFullImage(false));
            },
        };
        let total = data.len();
        let ghost all = data@;
        let ghost start = self@.market_state;
        let mut img = false;
        let mut market_ids: Vec<String> = Vec::new();
        let mut i: usize = 0;
        while data.len() > 0
            invariant
                self.wf(),
                total == all.len(),
                i + data@.len() == all.len(),
                data@ == all.skip(i as int),
                (self@.market_state, img, market_ids@.map_values(|s: String| s@))
                    == markets_with_changes(start, all.take(i as int), publish_time),
                forall|j: int|
                    0 <= j < market_ids@.len() ==> has_key(
                        self@.market_state,
                        #[trigger] market_ids@[j]@,
                    ),
                self.updates_processed == old(self).updates_processed,
            decreases data@.len(),
        {
            proof {
                assert(all.take(i + 1).drop_last() == all.take(i as int));
                assert(all.take(i + 1).last() == all[i as int]);
                assert(all.skip(i as int)[0] == all[i as int]);
            }
            let market_change = data.remove(0);
            proof {
                assert(data@ =~= all.skip(i + 1));
            }
            let ghost ids_before = market_ids@;
            self.apply_market_change(market_change, publish_time, &mut img, &mut market_ids);
            proof {
                assert(market_ids@.map_values(|s: String| s@) =~= match all[i as int].market_id {
                    Some(id) => ids_before.map_values(|s: String| s@).push(id@),
                    None => ids_before.map_values(|s: String| s@),
                });
            }
            i = i + 1;
        }
        proof {
            assert(all.take(i as int) == all);
        }
        let ghost st = self@.market_state;
        let ghost ids = market_ids@.map_values(|s: String| s@);
        let mut updated_caches: Vec<MarketBookCache> = Vec::new();
        let mut j: usize = 0;
        while j < market_ids.len()
            invariant
                0 <= j <= market_ids@.len(),
                self.wf(),
                self@.market_state == st,
                ids == market_ids@.map_values(|s: String| s@),
                forall|k: int| 0 <= k < market_ids@.len() ==> has_key(st, #[trigger] market_ids@[k]@),
                updated_caches@.len() == j,
                forall|k: int|
                    0 <= k < j ==> (#[trigger] updated_caches@[k])@ == value_of(st, ids[k]),
                self.updates_processed == saturating_count(old(self).updates_processed, j as nat),
            decreases market_ids@.len() - j,
        {
            match find_string_key(&self.market_state, &market_ids[j]) {
                Some(p) => {
                    proof {
                        assert(markets_view(self.market_state@)[p as int].0 == ids[j as int]);
                        lemma_key_pos(st, ids[j as int], p as int);
                    }
                    updated_caches.push(self.market_state[p].1.copy());
                    self.updates_processed = self.updates_processed.saturating_add(1);
                },
                None => {
                    proof {
                        let q = key_pos(st, market_ids@[j as int]@);
                        assert(self.market_state@[q].0@ == market_ids@[j as int]@);
                    }
                },
            }
            j = j + 1;
        }
        proof {
            assert(updated_caches@.map_values(|m: MarketBookCache| m@) =~= ids.map_values(
                |id: Seq<char>| value_of(st, id),
            ));
            assert(self@ =~= market_process(old(self)@, m).0);
        }
        (Some(updated_caches), HasFullImage(img))
    }

    /// Applies one market change; records its market id.
    fn apply_market_change(
        &mut self,
        mut market_change: MarketChange,
        publish_time: Timestamp,
        img: &mut bool,
        market_ids: &mut Vec<String>,
    )
        requires
            old(self).wf(),
            forall|j: int|
                0 <= j < old(market_ids)@.len() ==> has_key(
                    old(self)@.market_state,
                    #[trigger] old(market_ids)@[j]@,
                ),
        ensures
            final(self).wf(),
            ({
                let next = markets_with_change(old(self)@.market_state, market_change, publish_time);
                final(self)@.market_state == next.0 && *final(img) == (*old(img) || next.1)
            }),
            final(market_ids)@ == match market_change.market_id {
                Some(id) => old(market_ids)@.push(id),
                None => old(market_ids)@,
            },
            forall|j: int|
                0 <= j < final(market_ids)@.len() ==> has_key(
                    final(self)@.market_state,
                    #[trigger] final(market_ids)@[j]@,
                ),
            final(self).updates_processed == old(self).updates_processed,
    {
        let ghost mc = market_change;
        let ghost st = self@.market_state;
        let ghost ids0 = market_ids@;
        let market_id = match &market_change.market_id {
            Some(id) => id.clone(),
            None => {
                return ;
            },
        };
        let full_image = match market_change.full_image {
            Some(b) => b,
            None => false,
        };
        let ghost k = market_id@;
        let idx = match find_string_key(&self.market_state, &market_id) {
            Some(p) => {
                proof {
                    assert(markets_view(self.market_state@)[p as int].0 == k);
                    lemma_key_pos(st, k, p as int);
                }
                if full_image {
                    *img = true;
                    self.market_state.set(
                        p,
                        (market_id.clone(), MarketBookCache::new(market_id.clone(), publish_time)),
                    );
                    proof {
                        assert(markets_view(self.market_state@) =~= st.update(
                            p as int,
                            (k, new_market_view(k, publish_time)),
                        ));
                        lemma_update_unique(st, p as int, new_market_view(k, publish_time));
                    }
                }
                p
            },
            None => {
                proof {
                    assert(!has_key(st, k)) by {
                        if has_key(st, k) {
                            let q = key_pos(st, k);
                            assert(self.market_state@[q].0@ == k);
                        }
                    }
                    lemma_push_unique(st, k, new_market_view(k, publish_time));
                }
                *img = true;
                self.market_state.push(
                    (market_id.clone(), MarketBookCache::new(market_id.clone(), publish_time)),
                );
                proof {
                    assert(markets_view(self.market_state@) =~= st.push(
                        (k, new_market_view(k, publish_time)),
                    ));
                }
                self.market_state.len() - 1
            },
        };
        let ghost mid = self@.market_state;
        proof {
            assert(mid[idx as int].1.wf());
        }
        let entry = &mut self.market_state[idx];
        entry.1.update_cache(market_change, publish_time, true);
        market_ids.push(market_id);
        proof {
            let fresh = !has_key(st, k) || mc.full_image == Some(true);
            let base = if fresh {
                new_market_view(k, publish_time)
            } else {
                value_of(st, k)
            };
            let nv = market_with_change(base, mc, publish_time, true);
            assert(mid[idx as int].1 == base);
            lemma_update_unique(mid, idx as int, nv);
            assert(markets_view(self.market_state@) =~= mid.update(idx as int, (k, nv)));
            if has_key(st, k) {
                assert(mid.update(idx as int, (k, nv)) =~= st.update(key_pos(st, k), (k, nv)));
            } else {
                assert(mid.update(idx as int, (k, nv)) =~= st.push((k, nv)));
            }
            let r = markets_view(self.market_state@);
            assert forall|j: int| 0 <= j < market_ids@.len() implies has_key(
                r,
                #[trigger] market_ids@[j]@,
            ) by {
                if j < market_ids@.len() - 1 {
                    assert(market_ids@[j] == ids0[j]);
                    assert(has_key(st, ids0[j]@));
                    let q = key_pos(st, ids0[j]@);
                    assert(st[q].0 == ids0[j]@);
                    assert(mid[q].0 == st[q].0);
                    assert(r[q].0 == mid[q].0);
                } else {
                    assert(r[idx as int].0 == k);
                }
            }
        }
    }

    /// Drops the books of markets that count as closed and were last changed
    /// more than eight hours before `publish_time`.
    pub fn clear_stale_cache(&mut self, publish_time: Timestamp)
        requires
            old(self).wf(),
        ensures
            final(self)@ == (MarketTrackerView {
                market_state: markets_kept(old(self)@.market_state, publish_time),
                ..old(self)@
            }),
            final(self).wf(),
    {
        let ghost orig = self@.market_state;
        let mut i: usize = 0;
        let mut j: usize = 0;
        let n = self.market_state.len();
        while j < n
            invariant
                0 <= j <= n,
                n == orig.len(),
                self@.market_state == markets_kept(orig.take(j as int), publish_time) + orig.skip(
                    j as int,
                ),
                i == markets_kept(orig.take(j as int), publish_time).len(),
                unique_keys(orig),
                forall|q: int|
                    0 <= q < orig.len() ==> (#[trigger] orig[q]).1.wf() && orig[q].1.market_id
                        == orig[q].0,
                self.updates_processed == old(self).updates_processed,
            decreases n - j,
        {
            proof {
                assert(orig.take(j + 1).drop_last() == orig.take(j as int));
                assert(orig.take(j + 1).last() == orig[j as int]);
                assert(orig.skip(j as int).len() == n - j);
                assert(markets_view(self.market_state@).len() == self.market_state@.len());
                assert(i < self.market_state@.len());
                assert(orig.skip(j as int)[0] == orig[j as int]);
                assert(markets_view(self.market_state@)[i as int] == orig[j as int]);
            }
            let closed = self.market_state[i].1.is_closed();
            let changed = self.market_state[i].1.publish_time();
            let ghost before = markets_view(self.market_state@);
            let cur_len = self.market_state.len();
            if keep(closed, changed, publish_time) {
                assert(i < cur_len);
                i = i + 1;
                proof {
                    assert(markets_view(self.market_state@) =~= markets_kept(
                        orig.take(j + 1),
                        publish_time,
                    ) + orig.skip(j + 1));
                }
            } else {
                self.market_state.remove(i);
                proof {
                    assert(markets_view(self.market_state@) =~= before.remove(i as int));
                    assert(markets_view(self.market_state@) =~= markets_kept(
                        orig.take(j + 1),
                        publish_time,
                    ) + orig.skip(j + 1));
                }
            }
            j = j + 1;
        }
        proof {
            assert(orig.take(n as int) == orig);
            assert(orig.skip(n as int) =~= Seq::<(Seq<char>, MarketBookView)>::empty());
            lemma_markets_kept_sub(orig, publish_time);
            assert(self@ =~= MarketTrackerView {
                market_state: markets_kept(orig, publish_time),
                ..old(self)@
            });
        }
    }

    /// The books of all markets.
    pub fn states(&self) -> (r: Vec<&MarketBookCache>)
        ensures
            r@.map_values(|m: &MarketBookCache| m@) == self@.market_state.map_values(
                |e: (Seq<char>, MarketBookView)| e.1,
            ),
    {
        let mut r: Vec<&MarketBookCache> = Vec::new();
        let mut i: usize = 0;
        while i < self.market_state.len()
            invariant
                0 <= i <= self.market_state@.len(),
                r@.len() == i,
                forall|k: int| 0 <= k < i ==> (#[trigger] r@[k])@ == self.market_state@[k].1@,
            decreases self.market_state@.len() - i,
        {
            r.push(&self.market_state[i].1);
            i = i + 1;
        }
        proof {
            assert(r@.map_values(|m: &MarketBookCache| m@) =~= self@.market_state.map_values(
                |e: (Seq<char>, MarketBookView)| e.1,
            ));
        }
        r
    }
}

/// The entries kept are entries of the given list, in order, so keys stay
/// unique and entries stay well formed.
proof fn lemma_markets_kept_sub(st: MarketsView, publish_time: Timestamp)
    requires
        unique_keys(st),
        forall|q: int|
            0 <= q < st.len() ==> (#[trigger] st[q]).1.wf() && st[q].1.market_id == st[q].0,
    ensures
        (MarketTrackerView { market_state: markets_kept(st, publish_time), updates_processed: 0 }).wf(),
        forall|q: int|
            0 <= q < markets_kept(st, publish_time).len() ==> exists|p: int|
                0 <= p < st.len() && st[p] == #[trigger] markets_kept(st, publish_time)[q],
    decreases st.len(),
{
    if st.len() > 0 {
        let prefix = st.drop_last();
        assert(unique_keys(prefix)) by {
            assert forall|a: int, b: int| 0 <= a < b < prefix.len() implies prefix[a].0
                != prefix[b].0 by {
                assert(prefix[a] == st[a] && prefix[b] == st[b]);
            }
        }
        assert forall|q: int| 0 <= q < prefix.len() implies (#[trigger] prefix[q]).1.wf()
            && prefix[q].1.market_id == prefix[q].0 by {
            assert(prefix[q] == st[q]);
        }
        lemma_markets_kept_sub(prefix, publish_time);
        let prev = markets_kept(prefix, publish_time);
        let r = markets_kept(st, publish_time);
        assert forall|q: int| 0 <= q < r.len() implies exists|p: int|
            0 <= p < st.len() && st[p] == #[trigger] r[q] by {
            if q < prev.len() {
                let p = choose|p: int| 0 <= p < prefix.len() && prefix[p] == prev[q];
                assert(st[p] == prefix[p]);
            } else {
                assert(r[q] == st[st.len() - 1]);
            }
        }
        if r != prev {
            assert(r == prev.push(st.last()));
            assert forall|a: int, b: int| 0 <= a < b < r.len() implies r[a].0 != r[b].0 by {
                if b == prev.len() {
                    let p = choose|p: int| 0 <= p < prefix.len() && prefix[p] == prev[a];
                    assert(st[p] == prefix[p]);
                    assert(r[b] == st[st.len() - 1]);
                } else {
                    assert(r[a] == prev[a] && r[b] == prev[b]);
                }
            }
            assert forall|q: int| 0 <= q < r.len() implies (#[trigger] r[q]).1.wf()
                && r[q].1.market_id == r[q].0 by {
                let p = choose|p: int| 0 <= p < st.len() && st[p] == r[q];
            }
        }
    }
}

/// A new, empty, open order book.
pub open spec fn new_order_book_view(id: Seq<char>, publish_time: Timestamp) -> OrderBookView {
    OrderBookView { market_id: id, publish_time, closed: false, runners: Seq::empty(), last_change: None }
}

/// The order books after one order market change: a change of an unknown
/// market, or a full image, starts from a new order book; the change is then
/// applied to the book. The flag tells whether the book was started anew.
pub open spec fn order_markets_with_change(
    st: OrderMarketsView,
    c: OrderMarketChange,
    pt: Timestamp,
) -> (OrderMarketsView, bool) {
    let k = c.market_id@;
    let fresh = !has_key(st, k) || c.full_image == Some(true);
    let base = if fresh {
        new_order_book_view(k, pt)
    } else {
        value_of(st, k)
    };
    (upsert(st, k, order_book_with_change(base, c, pt)), fresh)
}

/// The order books after order market changes applied in order, whether any
/// book was started anew, and the market ids of the changes, in order.
pub open spec fn order_markets_with_changes(
    st: OrderMarketsView,
    cs: Seq<OrderMarketChange>,
    pt: Timestamp,
) -> (OrderMarketsView, bool, Seq<Seq<char>>)
    decreases cs.len(),
{
    if cs.len() == 0 {
        (st, false, Seq::empty())
    } else {
        let prev = order_markets_with_changes(st, cs.drop_last(), pt);
        let c = cs.last();
        let next = order_markets_with_change(prev.0, c, pt);
        (next.0, prev.1 || next.1, prev.2.push(c.market_id@))
    }
}

/// A full image of a market's orders does not depend on what the cache held
/// for it: from any two caches, the change gives the book that a new order
/// book updated with the change would be.
pub proof fn law_full_image_replaces_order_book(
    st1: OrderMarketsView,
    st2: OrderMarketsView,
    c: OrderMarketChange,
    pt: Timestamp,
)
    requires
        unique_keys(st1),
        unique_keys(st2),
        c.full_image == Some(true),
    ensures
        ({
            let k = c.market_id@;
            let fresh = order_book_with_change(new_order_book_view(k, pt), c, pt);
            &&& has_key(order_markets_with_change(st1, c, pt).0, k)
            &&& value_of(order_markets_with_change(st1, c, pt).0, k) == fresh
            &&& value_of(order_markets_with_change(st2, c, pt).0, k) == fresh
        }),
{
    let k = c.market_id@;
    let fresh = order_book_with_change(new_order_book_view(k, pt), c, pt);
    lemma_upsert_value(st1, k, fresh);
    lemma_upsert_value(st2, k, fresh);
}

/// An order market change touches only the order book of its own market.
pub proof fn law_change_keeps_other_order_books(
    st: OrderMarketsView,
    c: OrderMarketChange,
    pt: Timestamp,
    other: Seq<char>,
)
    requires
        unique_keys(st),
        c.market_id@ != other,
    ensures
        has_key(order_markets_with_change(st, c, pt).0, other) == has_key(st, other),
        has_key(st, other) ==> value_of(order_markets_with_change(st, c, pt).0, other)
            == value_of(st, other),
{
    let k = c.market_id@;
    let fresh = !has_key(st, k) || c.full_image == Some(true);
    let base = if fresh {
        new_order_book_view(k, pt)
    } else {
        value_of(st, k)
    };
    lemma_upsert_other(st, k, order_book_with_change(base, c, pt), other);
}

/// What an order stream tracker holds, as a mathematical value.
#[verifier::ext_equal]
pub struct OrderTrackerView {
    pub market_state: OrderMarketsView,
    pub updates_processed: u64,
}

impl OrderTrackerView {
    /// No market id occurs twice, every book is well formed and is kept under
    /// its own market id.
    pub open spec fn wf(self) -> bool {
        &&& unique_keys(self.market_state)
        &&& forall|i: int|
            0 <= i < self.market_state.len() ==> (#[trigger] self.market_state[i]).1.wf()
                && self.market_state[i].1.market_id == self.market_state[i].0
    }
}

/// An order change message applied to an order tracker: the new tracker, the
/// books of the changed markets in the order of the changes (absent when the
/// message has no publish time or changed no market), and whether a book was
/// started anew.
pub open spec fn order_process(t: OrderTrackerView, msg: OrderChangeMessage) -> (
    OrderTrackerView,
    Option<Seq<OrderBookView>>,
    bool,
) {
    match msg.publish_time {
        None => (t, None, false),
        Some(pt) => match msg.data {
            None => (t, None, false),
            Some(d) => {
                let (st, img, ids) = order_markets_with_changes(t.market_state, d@, pt);
                (
                    OrderTrackerView {
                        market_state: st,
                        updates_processed: wrapping_count(t.updates_processed, ids.len()),
                    },
                    if ids.len() == 0 {
                        None
                    } else {
                        Some(ids.map_values(|id: Seq<char>| value_of(st, id)))
                    },
                    img,
                )
            },
        },
    }
}

/// The caches of the order stream.
#[derive(Debug)]
pub struct OrderStreamTracker {
    market_state: Vec<(String, OrderBookCache)>,
    updates_processed: u64,
}

/// The order books of a vector of keyed order books, as mathematical values.
pub open spec fn order_markets_view(v: Seq<(String, OrderBookCache)>) -> OrderMarketsView {
    v.map_values(|e: (String, OrderBookCache)| (e.0@, e.1@))
}

impl View for OrderStreamTracker {
    type V = OrderTrackerView;

    closed spec fn view(&self) -> OrderTrackerView {
        OrderTrackerView {
            market_state: order_markets_view(self.market_state@),
            updates_processed: self.updates_processed,
        }
    }
}

impl OrderStreamTracker {
    /// No market id occurs twice and every book is well formed.
    pub open spec fn wf(&self) -> bool {
        self@.wf()
    }

    /// An empty tracker.
    pub fn new() -> (r: Self)
        ensures
            r@ == (OrderTrackerView { market_state: Seq::empty(), updates_processed: 0 }),
            r.wf(),
    {
        let r = OrderStreamTracker { market_state: Vec::new(), updates_processed: 0 };
        proof {
            assert(order_markets_view(r.market_state@) =~= Seq::empty());
        }
        r
    }

    /// Applies an order change message: see `order_process`.
    pub fn process(&mut self, msg: OrderChangeMessage) -> (r: (
        Option<Vec<OrderBookCache>>,
        HasFullImage,
    ))
        requires
            old(self).wf(),
        ensures
            final(self).wf(),
            (final(self)@, opt_order_views(r.0), r.1.0) == order_process(old(self)@, msg),
    {
        let ghost m = msg;
        let publish_time = match msg.publish_time {
            Some(pt) => pt,
            None => {
                return (None, HasFullImage(false));
            },
        };
        let mut data = match msg.data {
            Some(d) => d,
            None => {
                return (None, HasFullImage(false));
            },
        };
        let total = data.len();
        let ghost all = data@;
        let ghost start = self@.market_state;
        let mut img = false;
        let mut market_ids: Vec<String> = Vec::new();
        let mut i: usize = 0;
        while data.len() > 0
            invariant
                self.wf(),
                total == all.len(),
                i + data@.len() == all.len(),
                data@ == all.skip(i as int),
                (self@.market_state, img, market_ids@.map_values(|s: String| s@))
                    == order_markets_with_changes(start, all.take(i as int), publish_time),
                forall|j: int|
                    0 <= j < market_ids@.len() ==> has_key(
                        self@.market_state,
                        #[trigger] market_ids@[j]@,
                    ),
                self.updates_processed == old(self).updates_processed,
            decreases data@.len(),
        {
            proof {
                assert(all.take(i + 1).drop_last() == all.take(i as int));
                assert(all.take(i + 1).last() == all[i as int]);
                assert(all.skip(i as int)[0] == all[i as int]);
            }
            let market_change = data.remove(0);
            proof {
                assert(data@ =~= all.skip(i + 1));
            }
            let ghost ids_before = market_ids@;
            self.apply_market_change(market_change, publish_time, &mut img, &mut market_ids);
            proof {
                assert(market_ids@.map_values(|s: String| s@) =~= ids_before.map_values(
                    |s: String| s@,
                ).push(all[i as int].market_id@));
            }
            i = i + 1;
        }
        proof {
            assert(all.take(i as int) == all);
        }
        let ghost st = self@.market_state;
        let ghost ids = market_ids@.map_values(|s: String| s@);
        let mut updated_caches: Vec<OrderBookCache> = Vec::new();
        let mut j: usize = 0;
        while j < market_ids.len()
            invariant
                0 <= j <= market_ids@.len(),
                self.wf(),
                self@.market_state == st,
                ids == market_ids@.map_values(|s: String| s@),
                forall|k: int| 0 <= k < market_ids@.len() ==> has_key(st, #[trigger] market_ids@[k]@),
                updated_caches@.len() == j,
                forall|k: int|
                    0 <= k < j ==> (#[trigger] updated_caches@[k])@ == value_of(st, ids[k]),
                self.updates_processed == wrapping_count(old(self).updates_processed, j as nat),
            decreases market_ids@.len() - j,
        {
            match find_string_key(&self.market_state, &market_ids[j]) {
                Some(p) => {
                    proof {
                        assert(order_markets_view(self.market_state@)[p as int].0 == ids[j as int]);
                        lemma_key_pos(st, ids[j as int], p as int);
                    }
                    updated_caches.push(self.market_state[p].1.copy());
                    self.updates_processed = if self.updates_processed == u64::MAX {
                        0
                    } else {
                        self.updates_processed + 1
                    };
                },
                None => {
                    proof {
                        let q = key_pos(st, market_ids@[j as int]@);
                        assert(self.market_state@[q].0@ == market_ids@[j as int]@);
                    }
                },
            }
            j = j + 1;
        }
        proof {
            assert(updated_caches@.map_values(|m: OrderBookCache| m@) =~= ids.map_values(
                |id: Seq<char>| value_of(st, id),
            ));
            assert(self@ =~= order_process(old(self)@, m).0);
        }
        if updated_caches.len() == 0 {
            (None, HasFullImage(img))
        } else {
            (Some(updated_caches), HasFullImage(img))
        }
    }

    /// Applies one order market change; records its market id.
    fn apply_market_change(
        &mut self,
        market_change: OrderMarketChange,
        publish_time: Timestamp,
        img: &mut bool,
        market_ids: &mut Vec<String>,
    )
        requires
            old(self).wf(),
            forall|j: int|
                0 <= j < old(market_ids)@.len() ==> has_key(
                    old(self)@.market_state,
                    #[trigger] old(market_ids)@[j]@,
                ),
        ensures
            final(self).wf(),
            ({
                let next = order_markets_with_change(
                    old(self)@.market_state,
                    market_change,
                    publish_time,
                );
                final(self)@.market_state == next.0 && *final(img) == (*old(img) || next.1)
            }),
            final(market_ids)@ == old(market_ids)@.push(market_change.market_id),
            forall|j: int|
                0 <= j < final(market_ids)@.len() ==> has_key(
                    final(self)@.market_state,
                    #[trigger] final(market_ids)@[j]@,
                ),
            final(self).updates_processed == old(self).updates_processed,
    {
        let ghost mc = market_change;
        let ghost st = self@.market_state;
        let ghost ids0 = market_ids@;
        let market_id = market_change.market_id.clone();
        let full_image = match market_change.full_image {
            Some(b) => b,
            None => false,
        };
        let ghost k = market_id@;
        let idx = match find_string_key(&self.market_state, &market_id) {
            Some(p) => {
                proof {
                    assert(order_markets_view(self.market_state@)[p as int].0 == k);
                    lemma_key_pos(st, k, p as int);
                }
                if full_image {
                    *img = true;
                    self.market_state.set(
                        p,
                        (market_id.clone(), OrderBookCache::new(market_id.clone(), publish_time)),
                    );
                    proof {
                        assert(order_markets_view(self.market_state@) =~= st.update(
                            p as int,
                            (k, new_order_book_view(k, publish_time)),
                        ));
                        lemma_update_unique(st, p as int, new_order_book_view(k, publish_time));
                    }
                }
                p
            },
            None => {
                proof {
                    assert(!has_key(st, k)) by {
                        if has_key(st, k) {
                            let q = key_pos(st, k);
                            assert(self.market_state@[q].0@ == k);
                        }
                    }
                    lemma_push_unique(st, k, new_order_book_view(k, publish_time));
                }
                *img = true;
                self.market_state.push(
                    (market_id.clone(), OrderBookCache::new(market_id.clone(), publish_time)),
                );
                proof {
                    assert(order_markets_view(self.market_state@) =~= st.push(
                        (k, new_order_book_view(k, publish_time)),
                    ));
                }
                self.market_state.len() - 1
            },
        };
        let ghost mid = self@.market_state;
        proof {
            assert(mid[idx as int].1.wf());
        }
        let entry = &mut self.market_state[idx];
        entry.1.update_cache(market_change, publish_time);
        market_ids.push(market_id);
        proof {
            let fresh = !has_key(st, k) || mc.full_image == Some(true);
            let base = if fresh {
                new_order_book_view(k, publish_time)
            } else {
                value_of(st, k)
            };
            let nv = order_book_with_change(base, mc, publish_time);
            assert(mid[idx as int].1 == base);
            lemma_update_unique(mid, idx as int, nv);
            assert(order_markets_view(self.market_state@) =~= mid.update(idx as int, (k, nv)));
            if has_key(st, k) {
                assert(mid.update(idx as int, (k, nv)) =~= st.update(key_pos(st, k), (k, nv)));
            } else {
                assert(mid.update(idx as int, (k, nv)) =~= st.push((k, nv)));
            }
            let r = order_markets_view(self.market_state@);
            assert forall|j: int| 0 <= j < market_ids@.len() implies has_key(
                r,
                #[trigger] market_ids@[j]@,
            ) by {
                if j < market_ids@.len() - 1 {
                    assert(market_ids@[j] == ids0[j]);
                    assert(has_key(st, ids0[j]@));
                    let q = key_pos(st, ids0[j]@);
                    assert(st[q].0 == ids0[j]@);
                    assert(mid[q].0 == st[q].0);
                    assert(r[q].0 == mid[q].0);
                } else {
                    assert(r[idx as int].0 == k);
                }
            }
        }
    }

    /// Drops the order books that are closed and were last changed more than
    /// eight hours before `publish_time`.
    pub fn clear_stale_cache(&mut self, publish_time: Timestamp)
        requires
            old(self).wf(),
        ensures
            final(self)@ == (OrderTrackerView {
                market_state: orders_kept(old(self)@.market_state, publish_time),
                ..old(self)@
            }),
            final(self).wf(),
    {
        let ghost orig = self@.market_state;
        let mut i: usize = 0;
        let mut j: usize = 0;
        let n = self.market_state.len();
        while j < n
            invariant
                0 <= j <= n,
                n == orig.len(),
                self@.market_state == orders_kept(orig.take(j as int), publish_time) + orig.skip(
                    j as int,
                ),
                i == orders_kept(orig.take(j as int), publish_time).len(),
                unique_keys(orig),
                forall|q: int|
                    0 <= q < orig.len() ==> (#[trigger] orig[q]).1.wf() && orig[q].1.market_id
                        == orig[q].0,
                self.updates_processed == old(self).updates_processed,
            decreases n - j,
        {
            proof {
                assert(orig.take(j + 1).drop_last() == orig.take(j as int));
                assert(orig.take(j + 1).last() == orig[j as int]);
                assert(orig.skip(j as int).len() == n - j);
                assert(order_markets_view(self.market_state@).len() == self.market_state@.len());
                assert(i < self.market_state@.len());
                assert(orig.skip(j as int)[0] == orig[j as int]);
                assert(order_markets_view(self.market_state@)[i as int] == orig[j as int]);
            }
            let closed = self.market_state[i].1.is_closed();
            let changed = self.market_state[i].1.publish_time();
            let ghost before = order_markets_view(self.market_state@);
            let cur_len = self.market_state.len();
            if keep(closed, changed, publish_time) {
                assert(i < cur_len);
                i = i + 1;
                proof {
                    assert(order_markets_view(self.market_state@) =~= orders_kept(
                        orig.take(j + 1),
                        publish_time,
                    ) + orig.skip(j + 1));
                }
            } else {
                self.market_state.remove(i);
                proof {
                    assert(order_markets_view(self.market_state@) =~= before.remove(i as int));
                    assert(order_markets_view(self.market_state@) =~= orders_kept(
                        orig.take(j + 1),
                        publish_time,
                    ) + orig.skip(j + 1));
                }
            }
            j = j + 1;
        }
        proof {
            assert(orig.take(n as int) == orig);
            assert(orig.skip(n as int) =~= Seq::<(Seq<char>, OrderBookView)>::empty());
            lemma_orders_kept_sub(orig, publish_time);
            assert(self@ =~= OrderTrackerView {
                market_state: orders_kept(orig, publish_time),
                ..old(self)@
            });
        }
    }
}

/// The order books kept are entries of the given list, in order, so keys
/// stay unique and books stay well formed.
proof fn lemma_orders_kept_sub(st: OrderMarketsView, publish_time: Timestamp)
    requires
        unique_keys(st),
        forall|q: int|
            0 <= q < st.len() ==> (#[trigger] st[q]).1.wf() && st[q].1.market_id == st[q].0,
    ensures
        (OrderTrackerView { market_state: orders_kept(st, publish_time), updates_processed: 0 }).wf(),
        forall|q: int|
            0 <= q < orders_kept(st, publish_time).len() ==> exists|p: int|
                0 <= p < st.len() && st[p] == #[trigger] orders_kept(st, publish_time)[q],
    decreases st.len(),
{
    if st.len() > 0 {
        let prefix = st.drop_last();
        assert(unique_keys(prefix)) by {
            assert forall|a: int, b: int| 0 <= a < b < prefix.len() implies prefix[a].0
                != prefix[b].0 by {
                assert(prefix[a] == st[a] && prefix[b] == st[b]);
            }
        }
        assert forall|q: int| 0 <= q < prefix.len() implies (#[trigger] prefix[q]).1.wf()
            && prefix[q].1.market_id == prefix[q].0 by {
            assert(prefix[q] == st[q]);
        }
        lemma_orders_kept_sub(prefix, publish_time);
        let prev = orders_kept(prefix, publish_time);
        let r = orders_kept(st, publish_time);
        assert forall|q: int| 0 <= q < r.len() implies exists|p: int|
            0 <= p < st.len() && st[p] == #[trigger] r[q] by {
            if q < prev.len() {
                let p = choose|p: int| 0 <= p < prefix.len() && prefix[p] == prev[q];
                assert(st[p] == prefix[p]);
            } else {
                assert(r[q] == st[st.len() - 1]);
            }
        }
        if r != prev {
            assert(r == prev.push(st.last()));
            assert forall|a: int, b: int| 0 <= a < b < r.len() implies r[a].0 != r[b].0 by {
                if b == prev.len() {
                    let p = choose|p: int| 0 <= p < prefix.len() && prefix[p] == prev[a];
                    assert(st[p] == prefix[p]);
                    assert(r[b] == st[st.len() - 1]);
                } else {
                    assert(r[a] == prev[a] && r[b] == prev[b]);
                }
            }
            assert forall|q: int| 0 <= q < r.len() implies (#[trigger] r[q]).1.wf()
                && r[q].1.market_id == r[q].0 by {
                let p = choose|p: int| 0 <= p < st.len() && st[p] == r[q];
            }
        }
    }
}

/// Separate stream struct to hold market/order caches
#[derive(Debug)]
pub struct StreamState {
    pub stream_id: Option<u64>,
    pub update_clk: Option<Clock>,
    pub max_latency_ms: Option<u64>,
    pub unique_id: Option<i32>,
    pub initial_clock: Option<Clock>,
    pub time_created: Timestamp,
    pub time_updated: Timestamp,
    pub market_stream_tracker: MarketStreamTracker,
    pub order_stream_tracker: OrderStreamTracker,
}

/// What a stream state holds, as a mathematical value.
#[verifier::ext_equal]
pub struct StreamStateView {
    pub stream_id: Option<u64>,
    pub update_clk: Option<Seq<char>>,
    pub max_latency_ms: Option<u64>,
    pub unique_id: Option<i32>,
    pub initial_clock: Option<Seq<char>>,
    pub time_created: Timestamp,
    pub time_updated: Timestamp,
    pub markets: MarketTrackerView,
    pub orders: OrderTrackerView,
}

/// The view of an optional clock.
pub open spec fn clock_view(c: Option<Clock>) -> Option<Seq<char>> {
    match c {
        Some(x) => Some(x@),
        None => None,
    }
}

/// A clock after a message that may carry a new one.
pub open spec fn clock_after(old: Option<Seq<char>>, new: Option<Clock>) -> Option<Seq<char>> {
    match new {
        Some(c) => Some(c@),
        None => old,
    }
}

impl View for StreamState {
    type V = StreamStateView;

    open spec fn view(&self) -> StreamStateView {
        StreamStateView {
            stream_id: self.stream_id,
            update_clk: clock_view(self.update_clk),
            max_latency_ms: self.max_latency_ms,
            unique_id: self.unique_id,
            initial_clock: clock_view(self.initial_clock),
            time_created: self.time_created,
            time_updated: self.time_updated,
            markets: self.market_stream_tracker@,
            orders: self.order_stream_tracker@,
        }
    }
}

impl StreamStateView {
    /// Both trackers are well formed.
    pub open spec fn wf(self) -> bool {
        self.markets.wf() && self.orders.wf()
    }
}

/// The state after a change message's clocks were recorded at time `now`.
pub open spec fn with_clocks<T>(s: StreamStateView, msg: DatasetChangeMessage<T>, now: Timestamp) -> StreamStateView {
    StreamStateView {
        initial_clock: clock_after(s.initial_clock, msg.initial_clock),
        update_clk: clock_after(s.update_clk, msg.clock),
        time_updated: now,
        ..s
    }
}

/// Whether a change message records its clocks: always, except for a delta
/// (no change type, or a resubscription delta) that arrives before any clock
/// was recorded.
pub open spec fn records_clocks(s: StreamStateView, change_type: Option<ChangeType>) -> bool {
    match change_type {
        Some(ChangeType::SubImage) => true,
        Some(ChangeType::Heartbeat) => true,
        _ => s.update_clk.is_some(),
    }
}

/// A market change message applied to the stream state, the clocks being
/// recorded at time `now`: a heartbeat only records clocks; any other message
/// records clocks (see `records_clocks`) and goes to the market tracker, whose
/// changed books are the result.
pub open spec fn market_update(s: StreamStateView, msg: MarketChangeMessage, now: Timestamp) -> (
    StreamStateView,
    Option<Seq<MarketBookView>>,
) {
    let s1 = if records_clocks(s, msg.change_type) {
        with_clocks(s, msg, now)
    } else {
        s
    };
    if msg.change_type == Some(ChangeType::Heartbeat) {
        (s1, None)
    } else {
        let (t, out, _) = market_process(s.markets, msg);
        (StreamStateView { markets: t, ..s1 }, out)
    }
}

/// An order change message applied to the stream state, the clocks being
/// recorded at time `now`: as for market change messages, with the order
/// tracker.
pub open spec fn order_update(s: StreamStateView, msg: OrderChangeMessage, now: Timestamp) -> (
    StreamStateView,
    Option<Seq<OrderBookView>>,
) {
    let s1 = if records_clocks(s, msg.change_type) {
        with_clocks(s, msg, now)
    } else {
        s
    };
    if msg.change_type == Some(ChangeType::Heartbeat) {
        (s1, None)
    } else {
        let (t, out, _) = order_process(s.orders, msg);
        (StreamStateView { orders: t, ..s1 }, out)
    }
}

/// A heartbeat only records clocks: it leaves both caches as they were and
/// yields no books, for market and order streams alike.
pub proof fn law_heartbeat_keeps_caches(
    s: StreamStateView,
    market_msg: MarketChangeMessage,
    order_msg: OrderChangeMessage,
    now: Timestamp,
)
    requires
        market_msg.change_type == Some(ChangeType::Heartbeat),
        order_msg.change_type == Some(ChangeType::Heartbeat),
    ensures
        market_update(s, market_msg, now).0 == with_clocks(s, market_msg, now),
        market_update(s, market_msg, now).1.is_none(),
        order_update(s, order_msg, now).0 == with_clocks(s, order_msg, now),
        order_update(s, order_msg, now).1.is_none(),
{
}

impl Default for StreamState {
    /// A stream state with empty caches and no clocks, created now.
    fn default() -> (r: Self)
        ensures
            r@.stream_id.is_none() && r@.update_clk.is_none() && r@.max_latency_ms.is_none()
                && r@.unique_id.is_none() && r@.initial_clock.is_none(),
            r@.markets == (MarketTrackerView { market_state: Seq::empty(), updates_processed: 0 }),
            r@.orders == (OrderTrackerView { market_state: Seq::empty(), updates_processed: 0 }),
            r.wf(),
    {
        Self::new()
    }
}

impl StreamState {
    /// Both trackers are well formed.
    pub open spec fn wf(&self) -> bool {
        self@.wf()
    }

    /// A stream state with empty caches and no clocks, created now.
    pub fn new() -> (r: Self)
        ensures
            r@.stream_id.is_none() && r@.update_clk.is_none() && r@.max_latency_ms.is_none()
                && r@.unique_id.is_none() && r@.initial_clock.is_none(),
            r@.markets == (MarketTrackerView { market_state: Seq::empty(), updates_processed: 0 }),
            r@.orders == (OrderTrackerView { market_state: Seq::empty(), updates_processed: 0 }),
            r.wf(),
    {
        StreamState {
            stream_id: None,
            update_clk: None,
            max_latency_ms: None,
            unique_id: None,
            initial_clock: None,
            time_created: time_or(0),
            time_updated: time_or(0),
            market_stream_tracker: MarketStreamTracker::new(),
            order_stream_tracker: OrderStreamTracker::new(),
        }
    }

    /// Applies an order change message: see `order_update`.
    pub fn order_change_update(&mut self, msg: OrderChangeMessage) -> (r: Option<Vec<OrderBookCache>>)
        requires
            old(self).wf(),
        ensures
            (final(self)@, opt_order_views(r)) == order_update(old(self)@, msg, final(self)@.time_updated),
            final(self).wf(),
    {
        match msg.change_type {
            Some(ChangeType::SubImage) => {
                self.update_clk(&msg);
                self.order_stream_tracker.process(msg).0
            },
            Some(ChangeType::Heartbeat) => {
                self.update_clk(&msg);
                self.on_heartbeat(&msg);
                None
            },
            _ => {
                self.on_update(&msg);
                self.order_stream_tracker.process(msg).0
            },
        }
    }

    /// Applies a market change message: see `market_update`.
    pub fn market_change_update(&mut self, msg: MarketChangeMessage) -> (r: Option<Vec<MarketBookCache>>)
        requires
            old(self).wf(),
        ensures
            (final(self)@, opt_market_views(r)) == market_update(old(self)@, msg, final(self)@.time_updated),
            final(self).wf(),
    {
        match msg.change_type {
            Some(ChangeType::SubImage) => {
                self.update_clk(&msg);
                self.market_stream_tracker.process(msg).0
            },
            Some(ChangeType::Heartbeat) => {
                self.update_clk(&msg);
                self.on_heartbeat(&msg);
                None
            },
            _ => {
                self.on_update(&msg);
                self.market_stream_tracker.process(msg).0
            },
        }
    }

    /// Records the clocks of a delta once a clock has been recorded.
    fn on_update<T>(&mut self, msg: &DatasetChangeMessage<T>)
        ensures
            old(self).update_clk.is_some() ==> final(self)@ == with_clocks(old(self)@, *msg, final(self)@.time_updated),
            old(self).update_clk.is_none() ==> final(self)@ == old(self)@,
            final(self).market_stream_tracker == old(self).market_stream_tracker,
            final(self).order_stream_tracker == old(self).order_stream_tracker,
    {
        if self.update_clk.is_some() {
            self.update_clk(msg);
        }
    }

    /// Records the clocks of a heartbeat.
    fn on_heartbeat<T>(&mut self, msg: &DatasetChangeMessage<T>)
        ensures
            final(self)@ == with_clocks(old(self)@, *msg, final(self)@.time_updated),
            final(self).market_stream_tracker == old(self).market_stream_tracker,
            final(self).order_stream_tracker == old(self).order_stream_tracker,
    {
        self.update_clk(msg);
    }

    /// Drops stale closed caches of both trackers.
    pub fn clear_stale_cache(&mut self, publish_time: Timestamp)
        requires
            old(self).wf(),
        ensures
            final(self)@ == (StreamStateView {
                markets: MarketTrackerView {
                    market_state: markets_kept(old(self)@.markets.market_state, publish_time),
                    ..old(self)@.markets
                },
                orders: OrderTrackerView {
                    market_state: orders_kept(old(self)@.orders.market_state, publish_time),
                    ..old(self)@.orders
                },
                ..old(self)@
            }),
            final(self).wf(),
    {
        self.market_stream_tracker.clear_stale_cache(publish_time);
        self.order_stream_tracker.clear_stale_cache(publish_time);
    }

    /// Records the clocks that a change message carries, and the time.
    fn update_clk<T>(&mut self, data: &DatasetChangeMessage<T>)
        ensures
            final(self)@ == with_clocks(old(self)@, *data, final(self)@.time_updated),
            final(self).market_stream_tracker == old(self).market_stream_tracker,
            final(self).order_stream_tracker == old(self).order_stream_tracker,
    {
        if let Some(initial_clock) = &data.initial_clock {
            self.initial_clock = Some(initial_clock.clone());
        }
        if let Some(update_clk) = &data.clock {
            self.update_clk = Some(update_clk.clone());
        }
        self.time_updated = time_or(self.time_updated);
    }
}

} // verus!
