//! Order book cache: the orders and matched amounts of the account on one
//! market, folded from its order changes.
use vstd::prelude::*;

use crate::available::{Available, apply_updates};
use crate::keyed::{
    RunnerKey, find_runner_key, find_string_key, find_u64_key, has_key, key_pos, lemma_key_pos,
    lemma_push_unique, lemma_update_unique, lemma_upsert_other, lemma_upsert_unique,
    lemma_upsert_value, unique_keys, upsert, value_of,
};
use crate::ladder::UpdateSet2;
use crate::messages::{
    BetId, CustomerStrategyRef, Handicap, MarketId, Order, OrderMarketChange,
    OrderMarketChangeView, OrderRunnerChange, SelectionId, StrategyMatchChange, Timestamp,
    copy_vec,
};
use crate::runner_book::{Ladder2, ladder2_wf, upd2};

verus! {

/// Matched amounts of one strategy on a runner.
#[derive(Clone, Debug, PartialEq, Eq)]
pub struct StrategyMatch {
    pub matched_lays: Available<UpdateSet2>,
    pub matched_backs: Available<UpdateSet2>,
}

/// What a strategy match holds, as a mathematical value.
#[verifier::ext_equal]
pub struct StrategyMatchView {
    pub matched_lays: Ladder2,
    pub matched_backs: Ladder2,
}

impl View for StrategyMatch {
    type V = StrategyMatchView;

    open spec fn view(&self) -> StrategyMatchView {
        StrategyMatchView {
            matched_lays: self.matched_lays.book@,
            matched_backs: self.matched_backs.book@,
        }
    }
}

impl StrategyMatchView {
    /// Both ladders are sorted and hold no zero size.
    pub open spec fn wf(self) -> bool {
        ladder2_wf(self.matched_lays) && ladder2_wf(self.matched_backs)
    }
}

/// Cache of a runner in an order book (used for order book caching)
#[derive(Clone, Debug, PartialEq, Eq)]
pub struct OrderBookRunner {
    pub market_id: MarketId,
    pub selection_id: SelectionId,
    pub matched_lays: Available<UpdateSet2>,
    pub matched_backs: Available<UpdateSet2>,
    pub unmatched_orders: Vec<(BetId, Order)>,
    pub handicap: Option<Handicap>,
    pub strategy_matches: Vec<(CustomerStrategyRef, StrategyMatch)>,
}

/// Strategy matches keyed by strategy reference, as mathematical values.
pub type StrategyMatchesView = Seq<(Seq<char>, StrategyMatchView)>;

/// What an order book runner holds, as a mathematical value.
#[verifier::ext_equal]
pub struct OrderBookRunnerView {
    pub market_id: Seq<char>,
    pub selection_id: SelectionId,
    pub matched_lays: Ladder2,
    pub matched_backs: Ladder2,
    pub unmatched_orders: Seq<(BetId, Order)>,
    pub handicap: Option<Handicap>,
    pub strategy_matches: StrategyMatchesView,
}

/// The strategy matches of a runner, as mathematical values.
pub open spec fn strategy_matches_of(v: Seq<(CustomerStrategyRef, StrategyMatch)>) -> StrategyMatchesView {
    v.map_values(|e: (CustomerStrategyRef, StrategyMatch)| (e.0@, e.1@))
}

impl View for OrderBookRunner {
    type V = OrderBookRunnerView;

    open spec fn view(&self) -> OrderBookRunnerView {
        OrderBookRunnerView {
            market_id: self.market_id@,
            selection_id: self.selection_id,
            matched_lays: self.matched_lays.book@,
            matched_backs: self.matched_backs.book@,
            unmatched_orders: self.unmatched_orders@,
            handicap: self.handicap,
            strategy_matches: strategy_matches_of(self.strategy_matches@),
        }
    }
}

impl OrderBookRunnerView {
    /// Ladders are sorted without zero sizes, and no bet id or strategy
    /// reference occurs twice.
    pub open spec fn wf(self) -> bool {
        &&& ladder2_wf(self.matched_lays)
        &&& ladder2_wf(self.matched_backs)
        &&& unique_keys(self.unmatched_orders)
        &&& unique_keys(self.strategy_matches)
        &&& forall|i: int|
            0 <= i < self.strategy_matches.len() ==> (#[trigger] self.strategy_matches[i]).1.wf()
    }
}

/// The unmatched orders after new order images: each order replaces the order
/// with its bet id, or is added.
pub open spec fn orders_with(s: Seq<(BetId, Order)>, orders: Seq<Order>) -> Seq<(BetId, Order)>
    decreases orders.len(),
{
    if orders.len() == 0 {
        s
    } else {
        let o = orders.last();
        upsert(orders_with(s, orders.drop_last()), o.id, o)
    }
}

/// No order after position `i` of `orders` has the bet id of the order at `i`.
pub open spec fn last_of_its_id(orders: Seq<Order>, i: int) -> bool {
    forall|j: int| i < j < orders.len() ==> orders[j].id != orders[i].id
}

/// New order images replace the orders with their bet ids: after the update,
/// the runner holds, for the bet id of every order of the update, exactly the
/// last order of the update with that id; an order whose bet id the update does
/// not name is kept as it was; and no bet id occurs twice.
pub proof fn law_unmatched_orders_take_the_new_images(
    s: Seq<(BetId, Order)>,
    orders: Seq<Order>,
    id: BetId,
)
    requires
        unique_keys(s),
    ensures
        unique_keys(orders_with(s, orders)),
        forall|i: int|
            0 <= i < orders.len() && #[trigger] last_of_its_id(orders, i) ==> has_key(
                orders_with(s, orders),
                orders[i].id,
            ) && value_of(orders_with(s, orders), orders[i].id) == orders[i],
        (forall|j: int| 0 <= j < orders.len() ==> orders[j].id != id) ==> has_key(
            orders_with(s, orders),
            id,
        ) == has_key(s, id) && (has_key(s, id) ==> value_of(orders_with(s, orders), id)
            == value_of(s, id)),
    decreases orders.len(),
{
    if orders.len() > 0 {
        let p = orders.drop_last();
        let o = orders.last();
        let n = orders.len() - 1;
        law_unmatched_orders_take_the_new_images(s, p, id);
        let prev = orders_with(s, p);
        lemma_upsert_unique(prev, o.id, o);
        lemma_upsert_value(prev, o.id, o);
        assert forall|i: int|
            0 <= i < orders.len() && #[trigger] last_of_its_id(orders, i) implies has_key(
                orders_with(s, orders),
                orders[i].id,
            ) && value_of(orders_with(s, orders), orders[i].id) == orders[i] by {
            if i < n {
                assert(orders[n] == o);
                assert(orders[n].id != orders[i].id);
                assert(p[i] == orders[i]);
                assert(last_of_its_id(p, i)) by {
                    assert forall|j: int| i < j < p.len() implies p[j].id != p[i].id by {
                        assert(p[j] == orders[j]);
                    }
                }
                lemma_upsert_other(prev, o.id, o, orders[i].id);
            } else {
                assert(orders[i] == o);
            }
        }
        if forall|j: int| 0 <= j < orders.len() ==> orders[j].id != id {
            assert(orders[n] == o);
            assert forall|j: int| 0 <= j < p.len() implies p[j].id != id by {
                assert(p[j] == orders[j]);
            }
            lemma_upsert_other(prev, o.id, o, id);
        }
    }
}

/// A strategy match change updates the strategy's matched lays with the lays
/// it carries and its matched backs with the backs it carries, each ladder
/// unchanged when the change carries none for it.
pub proof fn law_strategy_change_updates_lays_and_backs(m: StrategyMatchView, c: StrategyMatchChange)
    ensures
        strategy_match_with(m, c).matched_lays == match c.ml {
            Some(v) => apply_updates(m.matched_lays, v@),
            None => m.matched_lays,
        },
        strategy_match_with(m, c).matched_backs == match c.mb {
            Some(v) => apply_updates(m.matched_backs, v@),
            None => m.matched_backs,
        },
{
}

/// A single strategy match change for strategy `k` leaves `k` holding the
/// old matched lays and backs of `k` (empty ones for a new strategy) updated
/// with the lays and backs the change carries; other strategies stay as they
/// were.
pub proof fn law_strategy_matches_follow_their_change(
    s: StrategyMatchesView,
    k: CustomerStrategyRef,
    c: StrategyMatchChange,
    other: Seq<char>,
)
    requires
        unique_keys(s),
        other != k@,
    ensures
        ({
            let n = strategy_matches_with(s, seq![(k, c)]);
            let old = if has_key(s, k@) {
                value_of(s, k@)
            } else {
                empty_strategy_match()
            };
            &&& has_key(n, k@)
            &&& value_of(n, k@).matched_lays == match c.ml {
                Some(v) => apply_updates(old.matched_lays, v@),
                None => old.matched_lays,
            }
            &&& value_of(n, k@).matched_backs == match c.mb {
                Some(v) => apply_updates(old.matched_backs, v@),
                None => old.matched_backs,
            }
            &&& has_key(n, other) == has_key(s, other)
            &&& has_key(s, other) ==> value_of(n, other) == value_of(s, other)
        }),
{
    let one = seq![(k, c)];
    assert(one.drop_last() =~= Seq::<(CustomerStrategyRef, StrategyMatchChange)>::empty());
    assert(one.last() == (k, c));
    let old = if has_key(s, k@) {
        value_of(s, k@)
    } else {
        empty_strategy_match()
    };
    let v = strategy_match_with(old, c);
    assert(strategy_matches_with(s, one.drop_last()) == s);
    assert(strategy_matches_with(s, one) == upsert(s, k@, v));
    lemma_upsert_value(s, k@, v);
    lemma_upsert_other(s, k@, v, other);
}

/// An order runner change updates the runner's matched lays with the lays it
/// carries and its matched backs with the backs it carries, each unchanged
/// when the change carries none for it.
pub proof fn law_order_runner_change_updates_lays_and_backs(r: OrderBookRunnerView, rc: OrderRunnerChange)
    ensures
        order_runner_with_change(r, rc).matched_lays == match rc.matched_lays {
            Some(v) => apply_updates(r.matched_lays, v@),
            None => r.matched_lays,
        },
        order_runner_with_change(r, rc).matched_backs == match rc.matched_backs {
            Some(v) => apply_updates(r.matched_backs, v@),
            None => r.matched_backs,
        },
{
}

/// A strategy match after a change of it.
pub open spec fn strategy_match_with(m: StrategyMatchView, c: StrategyMatchChange) -> StrategyMatchView {
    StrategyMatchView {
        matched_lays: upd2(m.matched_lays, c.ml),
        matched_backs: upd2(m.matched_backs, c.mb),
    }
}

/// An empty strategy match.
pub open spec fn empty_strategy_match() -> StrategyMatchView {
    StrategyMatchView { matched_lays: Seq::empty(), matched_backs: Seq::empty() }
}

/// The strategy matches after changes applied in order: a change of an unknown
/// strategy starts from an empty strategy match.
pub open spec fn strategy_matches_with(
    s: StrategyMatchesView,
    changes: Seq<(CustomerStrategyRef, StrategyMatchChange)>,
) -> StrategyMatchesView
    decreases changes.len(),
{
    if changes.len() == 0 {
        s
    } else {
        let prev = strategy_matches_with(s, changes.drop_last());
        let (k, c) = changes.last();
        let current = if has_key(prev, k@) {
            prev[key_pos(prev, k@)].1
        } else {
            empty_strategy_match()
        };
        upsert(prev, k@, strategy_match_with(current, c))
    }
}

/// An order book runner after an order runner change that names it.
pub open spec fn order_runner_with_change(r: OrderBookRunnerView, rc: OrderRunnerChange) -> OrderBookRunnerView {
    OrderBookRunnerView {
        matched_lays: upd2(r.matched_lays, rc.matched_lays),
        matched_backs: upd2(r.matched_backs, rc.matched_backs),
        unmatched_orders: match rc.unmatched_orders {
            Some(v) => orders_with(r.unmatched_orders, v@),
            None => r.unmatched_orders,
        },
        strategy_matches: match rc.strategy_matches {
            Some(v) => strategy_matches_with(r.strategy_matches, v@),
            None => r.strategy_matches,
        },
        ..r
    }
}

/// A new, empty order book runner.
pub open spec fn empty_order_runner(market_id: Seq<char>, selection_id: SelectionId) -> OrderBookRunnerView {
    OrderBookRunnerView {
        market_id,
        selection_id,
        matched_lays: Seq::empty(),
        matched_backs: Seq::empty(),
        unmatched_orders: Seq::empty(),
        handicap: None,
        strategy_matches: Seq::empty(),
    }
}

impl OrderBookRunner {
    /// Ladders are sorted without zero sizes, and no bet id or strategy
    /// reference occurs twice.
    pub open spec fn wf(&self) -> bool {
        self@.wf()
    }

    /// A new, empty runner of the market.
    pub fn new(market_id: MarketId, selection_id: SelectionId) -> (r: Self)
        ensures
            r@ == empty_order_runner(market_id@, selection_id),
            r.wf(),
    {
        let r = OrderBookRunner {
            market_id,
            selection_id,
            matched_lays: Available::new(&[]),
            matched_backs: Available::new(&[]),
            unmatched_orders: Vec::new(),
            handicap: None,
            strategy_matches: Vec::new(),
        };
        proof {
            assert(strategy_matches_of(r.strategy_matches@) =~= Seq::empty());
            assert(r@ =~= empty_order_runner(market_id@, selection_id));
        }
        r
    }

    /// Records order images: each replaces the order with its bet id, or is
    /// added.
    pub fn update_unmatched(&mut self, unmatched_orders: &[Order])
        requires
            old(self).wf(),
        ensures
            final(self)@ == (OrderBookRunnerView {
                unmatched_orders: orders_with(old(self)@.unmatched_orders, unmatched_orders@),
                ..old(self)@
            }),
            final(self).wf(),
    {
        let ghost start = self.unmatched_orders@;
        let mut i: usize = 0;
        while i < unmatched_orders.len()
            invariant
                0 <= i <= unmatched_orders@.len(),
                self.wf(),
                self.unmatched_orders@ == orders_with(start, unmatched_orders@.take(i as int)),
                self.market_id == old(self).market_id,
                self.selection_id == old(self).selection_id,
                self.matched_lays == old(self).matched_lays,
                self.matched_backs == old(self).matched_backs,
                self.handicap == old(self).handicap,
                self.strategy_matches == old(self).strategy_matches,
            decreases unmatched_orders@.len() - i,
        {
            proof {
                assert(unmatched_orders@.take(i + 1).drop_last() == unmatched_orders@.take(i as int));
            }
            let order = unmatched_orders[i];
            let ghost s = self.unmatched_orders@;
            match find_u64_key(&self.unmatched_orders, order.id) {
                Some(j) => {
                    proof {
                        lemma_key_pos(s, order.id, j as int);
                        lemma_update_unique(s, j as int, order);
                    }
                    self.unmatched_orders.set(j, (order.id, order));
                },
                None => {
                    proof {
                        lemma_push_unique(s, order.id, order);
                    }
                    self.unmatched_orders.push((order.id, order));
                },
            }
            i = i + 1;
        }
        proof {
            assert(unmatched_orders@.take(unmatched_orders@.len() as int) == unmatched_orders@);
            assert(self@ =~= OrderBookRunnerView {
                unmatched_orders: orders_with(start, unmatched_orders@),
                ..old(self)@
            });
        }
    }

    /// Updates the matched-lays ladder.
    pub fn update_matched_lays(&mut self, ml: &[UpdateSet2])
        requires
            old(self).wf(),
        ensures
            final(self)@ == (OrderBookRunnerView {
                matched_lays: apply_updates(old(self)@.matched_lays, ml@),
                ..old(self)@
            }),
            final(self).wf(),
    {
        self.matched_lays.update(ml);
        proof {
            assert(self@ =~= OrderBookRunnerView {
                matched_lays: apply_updates(old(self)@.matched_lays, ml@),
                ..old(self)@
            });
        }
    }

    /// Updates the matched-backs ladder.
    pub fn update_matched_backs(&mut self, mb: &[UpdateSet2])
        requires
            old(self).wf(),
        ensures
            final(self)@ == (OrderBookRunnerView {
                matched_backs: apply_updates(old(self)@.matched_backs, mb@),
                ..old(self)@
            }),
            final(self).wf(),
    {
        self.matched_backs.update(mb);
        proof {
            assert(self@ =~= OrderBookRunnerView {
                matched_backs: apply_updates(old(self)@.matched_backs, mb@),
                ..old(self)@
            });
        }
    }

    /// Applies strategy match changes in order; a change of an unknown strategy
    /// starts from an empty strategy match.
    pub fn update_strategy_matches(&mut self, sm: &[(CustomerStrategyRef, StrategyMatchChange)])
        requires
            old(self).wf(),
        ensures
            final(self)@ == (OrderBookRunnerView {
                strategy_matches: strategy_matches_with(old(self)@.strategy_matches, sm@),
                ..old(self)@
            }),
            final(self).wf(),
    {
        let ghost start = self@.strategy_matches;
        let mut i: usize = 0;
        while i < sm.len()
            invariant
                0 <= i <= sm@.len(),
                self.wf(),
                self@.strategy_matches == strategy_matches_with(start, sm@.take(i as int)),
                self.market_id == old(self).market_id,
                self.selection_id == old(self).selection_id,
                self.matched_lays == old(self).matched_lays,
                self.matched_backs == old(self).matched_backs,
                self.handicap == old(self).handicap,
                self.unmatched_orders == old(self).unmatched_orders,
            decreases sm@.len() - i,
        {
            proof {
                assert(sm@.take(i + 1).drop_last() == sm@.take(i as int));
            }
            let (key, value) = &sm[i];
            let ghost s = self@.strategy_matches;
            let idx = match find_string_key(&self.strategy_matches, key) {
                Some(j) => {
                    proof {
                        lemma_key_pos(s, key@, j as int);
                    }
                    j
                },
                None => {
                    proof {
                        assert(!has_key(s, key@)) by {
                            if has_key(s, key@) {
                                let j = key_pos(s, key@);
                                assert(self.strategy_matches@[j].0@ == key@);
                            }
                        }
                        lemma_push_unique(s, key@, empty_strategy_match());
                    }
                    self.strategy_matches.push(
                        (
                            key.clone(),
                            StrategyMatch {
                                matched_lays: Available::new(&[]),
                                matched_backs: Available::new(&[]),
                            },
                        ),
                    );
                    proof {
                        assert(strategy_matches_of(self.strategy_matches@) =~= s.push(
                            (key@, empty_strategy_match()),
                        ));
                    }
                    self.strategy_matches.len() - 1
                },
            };
            let ghost mid = self@.strategy_matches;
            let entry = &mut self.strategy_matches[idx];
            if let Some(ml) = &value.ml {
                entry.1.matched_lays.update(ml.as_slice());
            }
            if let Some(mb) = &value.mb {
                entry.1.matched_backs.update(mb.as_slice());
            }
            proof {
                let current = if has_key(s, key@) {
                    s[key_pos(s, key@)].1
                } else {
                    empty_strategy_match()
                };
                let nv = strategy_match_with(current, *value);
                lemma_update_unique(mid, idx as int, nv);
                assert(strategy_matches_of(self.strategy_matches@) =~= mid.update(
                    idx as int,
                    (key@, nv),
                ));
                if !has_key(s, key@) {
                    assert(mid.update(idx as int, (key@, nv)) =~= s.push((key@, nv)));
                }
            }
            i = i + 1;
        }
        proof {
            assert(sm@.take(sm@.len() as int) == sm@);
            assert(self@ =~= OrderBookRunnerView {
                strategy_matches: strategy_matches_with(start, sm@),
                ..old(self)@
            });
        }
    }

    /// Applies an order runner change that names this runner.
    pub fn apply_change(&mut self, rc: &OrderRunnerChange)
        requires
            old(self).wf(),
        ensures
            final(self)@ == order_runner_with_change(old(self)@, *rc),
            final(self).wf(),
    {
        if let Some(ml) = &rc.matched_lays {
            self.update_matched_lays(ml.as_slice());
        }
        if let Some(mb) = &rc.matched_backs {
            self.update_matched_backs(mb.as_slice());
        }
        if let Some(uo) = &rc.unmatched_orders {
            self.update_unmatched(uo.as_slice());
        }
        if let Some(sm) = &rc.strategy_matches {
            self.update_strategy_matches(sm.as_slice());
        }
        proof {
            assert(self@ =~= order_runner_with_change(old(self)@, *rc));
        }
    }

    /// A copy of the runner.
    pub fn copy(&self) -> (r: Self)
        ensures
            r@ == self@,
    {
        let mut strategy_matches: Vec<(CustomerStrategyRef, StrategyMatch)> = Vec::new();
        let mut i: usize = 0;
        while i < self.strategy_matches.len()
            invariant
                0 <= i <= self.strategy_matches@.len(),
                strategy_matches@.len() == i,
                forall|j: int|
                    0 <= j < i ==> (#[trigger] strategy_matches@[j]).0@ == self.strategy_matches@[j].0@
                        && strategy_matches@[j].1@ == self.strategy_matches@[j].1@,
            decreases self.strategy_matches@.len() - i,
        {
            let e = &self.strategy_matches[i];
            strategy_matches.push(
                (
                    e.0.clone(),
                    StrategyMatch {
                        matched_lays: Available { book: copy_vec(&e.1.matched_lays.book) },
                        matched_backs: Available { book: copy_vec(&e.1.matched_backs.book) },
                    },
                ),
            );
            i = i + 1;
        }
        proof {
            assert(strategy_matches_of(strategy_matches@) =~= strategy_matches_of(
                self.strategy_matches@,
            ));
        }
        OrderBookRunner {
            market_id: self.market_id.clone(),
            selection_id: self.selection_id,
            matched_lays: Available { book: copy_vec(&self.matched_lays.book) },
            matched_backs: Available { book: copy_vec(&self.matched_backs.book) },
            unmatched_orders: copy_vec(&self.unmatched_orders),
            handicap: self.handicap,
            strategy_matches,
        }
    }
}

/// Represents a cache for order book data.
#[derive(Clone, Debug, PartialEq, Eq)]
pub struct OrderBookCache {
    market_id: MarketId,
    publish_time: Timestamp,
    closed: bool,
    /// cache of orders placed on a runner
    runners: Vec<(RunnerKey, OrderBookRunner)>,
    last_change: Option<OrderMarketChange>,
}

/// Order book runners keyed by selection id and handicap.
pub type OrderRunnersView = Seq<(RunnerKey, OrderBookRunnerView)>;

/// What an order book holds, as a mathematical value.
#[verifier::ext_equal]
pub struct OrderBookView {
    pub market_id: Seq<char>,
    pub publish_time: Timestamp,
    pub closed: bool,
    pub runners: OrderRunnersView,
    pub last_change: Option<OrderMarketChangeView>,
}

/// The runners of a vector of keyed order book runners, as mathematical values.
pub open spec fn order_runners_view(v: Seq<(RunnerKey, OrderBookRunner)>) -> OrderRunnersView {
    v.map_values(|e: (RunnerKey, OrderBookRunner)| (e.0, e.1@))
}

impl View for OrderBookCache {
    type V = OrderBookView;

    closed spec fn view(&self) -> OrderBookView {
        OrderBookView {
            market_id: self.market_id@,
            publish_time: self.publish_time,
            closed: self.closed,
            runners: order_runners_view(self.runners@),
            last_change: match self.last_change {
                Some(c) => Some(c@),
                None => None,
            },
        }
    }
}

impl OrderBookView {
    /// No runner key occurs twice and every runner is well formed.
    pub open spec fn wf(self) -> bool {
        &&& unique_keys(self.runners)
        &&& forall|i: int| 0 <= i < self.runners.len() ==> (#[trigger] self.runners[i]).1.wf()
    }
}

/// The order runners after order runner changes applied in order: a change of
/// an unknown runner starts from an empty runner of the market.
pub open spec fn order_runners_with_changes(
    rs: OrderRunnersView,
    rcs: Seq<OrderRunnerChange>,
    market_id: Seq<char>,
) -> OrderRunnersView
    decreases rcs.len(),
{
    if rcs.len() == 0 {
        rs
    } else {
        let prev = order_runners_with_changes(rs, rcs.drop_last(), market_id);
        let rc = rcs.last();
        let k = (rc.id, rc.handicap);
        let current = if has_key(prev, k) {
            prev[key_pos(prev, k)].1
        } else {
            empty_order_runner(market_id, rc.id)
        };
        upsert(prev, k, order_runner_with_change(current, rc))
    }
}

/// An order book after an order market change published at `publish_time`.
pub open spec fn order_book_with_change(
    b: OrderBookView,
    change: OrderMarketChange,
    publish_time: Timestamp,
) -> OrderBookView {
    OrderBookView {
        market_id: b.market_id,
        publish_time,
        closed: match change.closed {
            Some(c) => c,
            None => b.closed,
        },
        runners: match change.order_runner_change {
            Some(v) => order_runners_with_changes(b.runners, v@, b.market_id),
            None => b.runners,
        },
        last_change: Some(change@),
    }
}

/// An order market change sets the book's closed flag when it carries one
/// (and keeps it otherwise), takes the change's publish time, records the
/// change as the last one, and keeps the book's market id.
pub proof fn law_order_book_change_sets_flags(
    b: OrderBookView,
    change: OrderMarketChange,
    publish_time: Timestamp,
)
    ensures
        ({
            let n = order_book_with_change(b, change, publish_time);
            &&& n.closed == (if change.closed.is_some() {
                change.closed.unwrap()
            } else {
                b.closed
            })
            &&& n.publish_time == publish_time
            &&& n.last_change == Some(change@)
            &&& n.market_id == b.market_id
            &&& change.order_runner_change is None ==> n.runners == b.runners
        }),
{
}

/// An order runner change touches its runner alone: the runner (a new, empty
/// one when unknown) gets the change folded in, and every other runner stays
/// as it was.
pub proof fn law_order_runner_change_touches_only_its_runner(
    rs: OrderRunnersView,
    rc: OrderRunnerChange,
    market_id: Seq<char>,
    other: RunnerKey,
)
    requires
        unique_keys(rs),
        other != (rc.id, rc.handicap),
    ensures
        ({
            let k = (rc.id, rc.handicap);
            let n = order_runners_with_changes(rs, seq![rc], market_id);
            &&& unique_keys(n)
            &&& has_key(n, k)
            &&& value_of(n, k) == order_runner_with_change(
                if has_key(rs, k) {
                    value_of(rs, k)
                } else {
                    empty_order_runner(market_id, rc.id)
                },
                rc,
            )
            &&& has_key(n, other) == has_key(rs, other)
            &&& has_key(rs, other) ==> value_of(n, other) == value_of(rs, other)
        }),
{
    let k = (rc.id, rc.handicap);
    let one = seq![rc];
    assert(one.drop_last() =~= Seq::<OrderRunnerChange>::empty());
    assert(one.last() == rc);
    let v = order_runner_with_change(
        if has_key(rs, k) {
            value_of(rs, k)
        } else {
            empty_order_runner(market_id, rc.id)
        },
        rc,
    );
    assert(order_runners_with_changes(rs, one.drop_last(), market_id) == rs);
    assert(order_runners_with_changes(rs, one, market_id) == upsert(rs, k, v));
    lemma_upsert_unique(rs, k, v);
    lemma_upsert_value(rs, k, v);
    lemma_upsert_other(rs, k, v, other);
}

impl OrderBookCache {
    /// No runner key occurs twice and every runner is well formed.
    pub open spec fn wf(&self) -> bool {
        self@.wf()
    }

    /// Creates an empty, open order book.
    pub fn new(market_id: MarketId, publish_time: Timestamp) -> (r: Self)
        ensures
            r@ == (OrderBookView {
                market_id: market_id@,
                publish_time,
                closed: false,
                runners: Seq::empty(),
                last_change: None,
            }),
            r.wf(),
    {
        let r = OrderBookCache {
            market_id,
            publish_time,
            closed: false,
            runners: Vec::new(),
            last_change: None,
        };
        proof {
            assert(order_runners_view(r.runners@) =~= Seq::empty());
        }
        r
    }

    /// Checks if the order book is closed.
    pub fn is_closed(&self) -> (r: bool)
        ensures
            r == self@.closed,
    {
        self.closed
    }

    /// Updates the cache with changes from the order market.
    pub fn update_cache(&mut self, change: OrderMarketChange, publish_time: Timestamp)
        requires
            old(self).wf(),
        ensures
            final(self)@ == order_book_with_change(old(self)@, change, publish_time),
            final(self).wf(),
    {
        let ghost start = order_runners_view(self.runners@);
        self.publish_time = publish_time;
        self.closed = match change.closed {
            Some(c) => c,
            None => self.closed,
        };
        if let Some(order_runner_change) = &change.order_runner_change {
            let mut i: usize = 0;
            while i < order_runner_change.len()
                invariant
                    0 <= i <= order_runner_change@.len(),
                    self.wf(),
                    order_runners_view(self.runners@) == order_runners_with_changes(
                        start,
                        order_runner_change@.take(i as int),
                        self.market_id@,
                    ),
                    self.market_id == old(self).market_id,
                    self.publish_time == publish_time,
                    self.closed == old(self).closed || change.closed.is_some(),
                    self.closed == match change.closed {
                        Some(c) => c,
                        None => old(self).closed,
                    },
                    self.last_change == old(self).last_change,
                decreases order_runner_change@.len() - i,
            {
                proof {
                    assert(order_runner_change@.take(i + 1).drop_last()
                        == order_runner_change@.take(i as int));
                }
                self.apply_runner_change(&order_runner_change[i]);
                i = i + 1;
            }
            proof {
                assert(order_runner_change@.take(order_runner_change@.len() as int)
                    == order_runner_change@);
            }
        }
        self.last_change = Some(change);
        proof {
            assert(self@ =~= order_book_with_change(old(self)@, change, publish_time));
        }
    }

    fn apply_runner_change(&mut self, rc: &OrderRunnerChange)
        requires
            old(self).wf(),
        ensures
            final(self).wf(),
            order_runners_view(final(self).runners@) == ({
                let rs = order_runners_view(old(self).runners@);
                let k = (rc.id, rc.handicap);
                let current = if has_key(rs, k) {
                    rs[key_pos(rs, k)].1
                } else {
                    empty_order_runner(old(self).market_id@, rc.id)
                };
                upsert(rs, k, order_runner_with_change(current, *rc))
            }),
            final(self).market_id == old(self).market_id,
            final(self).publish_time == old(self).publish_time,
            final(self).closed == old(self).closed,
            final(self).last_change == old(self).last_change,
    {
        let ghost rs = order_runners_view(self.runners@);
        let key: RunnerKey = (rc.id, rc.handicap);
        let idx = match find_runner_key(&self.runners, &key) {
            Some(j) => {
                proof {
                    assert(rs[j as int].0 == key);
                    lemma_key_pos(rs, key, j as int);
                }
                j
            },
            None => {
                proof {
                    assert(!has_key(rs, key)) by {
                        if has_key(rs, key) {
                            let j = key_pos(rs, key);
                            assert(self.runners@[j].0 == key);
                        }
                    }
                    lemma_push_unique(rs, key, empty_order_runner(self.market_id@, rc.id));
                }
                let runner = OrderBookRunner::new(self.market_id.clone(), rc.id);
                self.runners.push((key, runner));
                proof {
                    assert(order_runners_view(self.runners@) =~= rs.push(
                        (key, empty_order_runner(self.market_id@, rc.id)),
                    ));
                }
                self.runners.len() - 1
            },
        };
        let ghost mid = order_runners_view(self.runners@);
        let entry = &mut self.runners[idx];
        entry.1.apply_change(rc);
        proof {
            let current = if has_key(rs, key) {
                rs[key_pos(rs, key)].1
            } else {
                empty_order_runner(old(self).market_id@, rc.id)
            };
            let nv = order_runner_with_change(current, *rc);
            lemma_update_unique(mid, idx as int, nv);
            assert(order_runners_view(self.runners@) =~= mid.update(idx as int, (key, nv)));
            if !has_key(rs, key) {
                assert(mid.update(idx as int, (key, nv)) =~= rs.push((key, nv)));
            }
        }
    }

    /// Returns the publish time of the order book.
    pub fn publish_time(&self) -> (r: Timestamp)
        ensures
            r == self@.publish_time,
    {
        self.publish_time
    }

    /// Returns the runners in the order book cache.
    pub fn runners(&self) -> (r: &Vec<(RunnerKey, OrderBookRunner)>)
        ensures
            order_runners_view(r@) == self@.runners,
    {
        &self.runners
    }

    /// Consumes the `OrderBookCache` and returns the runners.
    pub fn into_runners(self) -> (r: Vec<(RunnerKey, OrderBookRunner)>)
        ensures
            order_runners_view(r@) == self@.runners,
    {
        self.runners
    }

    /// Returns the market ID of the order book cache.
    pub fn market_id(&self) -> (r: &MarketId)
        ensures
            r@ == self@.market_id,
    {
        &self.market_id
    }

    /// Returns the last change applied to the order book cache, if any.
    pub fn last_change(&self) -> (r: Option<&OrderMarketChange>)
        ensures
            match r {
                Some(c) => self@.last_change == Some(c@),
                None => self@.last_change.is_none(),
            },
    {
        self.last_change.as_ref()
    }

    /// A copy of the order book.
    pub fn copy(&self) -> (r: Self)
        ensures
            r@ == self@,
    {
        let mut runners: Vec<(RunnerKey, OrderBookRunner)> = Vec::new();
        let mut i: usize = 0;
        while i < self.runners.len()
            invariant
                0 <= i <= self.runners@.len(),
                runners@.len() == i,
                forall|j: int|
                    0 <= j < i ==> (#[trigger] runners@[j]).0 == self.runners@[j].0
                        && runners@[j].1@ == self.runners@[j].1@,
            decreases self.runners@.len() - i,
        {
            let e = &self.runners[i];
            runners.push((e.0, e.1.copy()));
            i = i + 1;
        }
        proof {
            assert(order_runners_view(runners@) =~= order_runners_view(self.runners@));
        }
        let last_change = match &self.last_change {
            Some(c) => Some(c.copy()),
            None => None,
        };
        OrderBookCache {
            market_id: self.market_id.clone(),
            publish_time: self.publish_time,
            closed: self.closed,
            runners,
            last_change,
        }
    }
}

} // verus!
