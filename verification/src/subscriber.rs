//! Subscription bookkeeping: the market and order filters of a client, and the
//! subscription requests that keep the stream in line with them.
use vstd::prelude::*;

use crate::messages::{
    CustomerStrategyRef, Fields, LadderLevel, MarketDataFilter, MarketFilter, MarketFilterView,
    MarketId, MarketSubscriptionMessage, OrderFilter, OrderFilterView, OrderSubscriptionMessage,
    RequestMessage, copy_vec, empty_market_filter, opt_seq, strings_view,
};

verus! {

/// The market that does not exist, subscribed to in order to unsubscribe from
/// all markets.
pub open spec fn absent_market() -> Seq<char> {
    "1.23456789"@
}

/// The strategy that does not exist, subscribed to in order to unsubscribe from
/// all strategies.
pub open spec fn absent_strategy() -> Seq<char> {
    "dosent exist   "@
}

/// The strings of `s` other than `x`, in order.
pub open spec fn without(s: Seq<Seq<char>>, x: Seq<char>) -> Seq<Seq<char>>
    decreases s.len(),
{
    if s.len() == 0 {
        s
    } else {
        let prev = without(s.drop_last(), x);
        if s.last() == x {
            prev
        } else {
            prev.push(s.last())
        }
    }
}

/// Removing a string that a list does not hold leaves the list as it is.
proof fn lemma_without_absent(s: Seq<Seq<char>>, x: Seq<char>)
    requires
        !s.contains(x),
    ensures
        without(s, x) == s,
    decreases s.len(),
{
    if s.len() > 0 {
        assert(!s.drop_last().contains(x)) by {
            if s.drop_last().contains(x) {
                let i = choose|i: int| 0 <= i < s.drop_last().len() && s.drop_last()[i] == x;
                assert(s[i] == x);
            }
        }
        lemma_without_absent(s.drop_last(), x);
        assert(s.last() != x) by {
            assert(s[s.len() - 1] == s.last());
        }
        assert(s.drop_last().push(s.last()) =~= s);
    }
}

/// A list without `x` holds no `x`.
proof fn lemma_without_lacks(s: Seq<Seq<char>>, x: Seq<char>)
    ensures
        !without(s, x).contains(x),
    decreases s.len(),
{
    if s.len() > 0 {
        lemma_without_lacks(s.drop_last(), x);
        let prev = without(s.drop_last(), x);
        if s.last() != x {
            assert forall|i: int| 0 <= i < prev.push(s.last()).len() implies prev.push(s.last())[i]
                != x by {
                if i < prev.len() {
                    assert(prev.push(s.last())[i] == prev[i]);
                }
            }
        }
    }
}

/// Unsubscribing undoes subscribing: removing a market id (or strategy
/// reference) just added to a list that did not hold it gives back the list.
pub proof fn law_unsubscribe_undoes_subscribe(ids: Seq<Seq<char>>, x: Seq<char>)
    requires
        !ids.contains(x),
    ensures
        without(ids.push(x), x) == ids,
{
    assert(ids.push(x).drop_last() =~= ids);
    lemma_without_absent(ids, x);
}

/// Unsubscribing twice from the same market id (or strategy reference) leaves
/// the list as unsubscribing once does.
pub proof fn law_unsubscribe_is_idempotent(ids: Seq<Seq<char>>, x: Seq<char>)
    ensures
        without(without(ids, x), x) == without(ids, x),
{
    lemma_without_lacks(ids, x);
    lemma_without_absent(without(ids, x), x);
}

/// The strings of `v` other than `x`.
fn remove_all(v: &Vec<String>, x: &String) -> (r: Vec<String>)
    ensures
        strings_view(r@) == without(strings_view(v@), x@),
{
    let mut r: Vec<String> = Vec::new();
    let mut i: usize = 0;
    while i < v.len()
        invariant
            0 <= i <= v@.len(),
            strings_view(r@) == without(strings_view(v@).take(i as int), x@),
        decreases v@.len() - i,
    {
        proof {
            assert(strings_view(v@).take(i + 1).drop_last() == strings_view(v@).take(i as int));
            assert(strings_view(v@).take(i + 1).last() == v@[i as int]@);
        }
        if v[i] != *x {
            r.push(v[i].clone());
            proof {
                assert(strings_view(r@) =~= without(strings_view(v@).take(i as int), x@).push(
                    v@[i as int]@,
                ));
            }
        }
        i = i + 1;
    }
    proof {
        assert(strings_view(v@).take(v@.len() as int) == strings_view(v@));
    }
    r
}

/// A list of strings with one more at its end.
fn pushed(v: Option<Vec<String>>, x: String) -> (r: Option<Vec<String>>)
    ensures
        r.is_some(),
        strings_view(r.unwrap()@) == match v {
            Some(s) => strings_view(s@).push(x@),
            None => seq![x@],
        },
{
    match v {
        Some(mut s) => {
            let ghost before = s@;
            s.push(x);
            proof {
                assert(strings_view(s@) =~= strings_view(before).push(x@));
            }
            Some(s)
        },
        None => {
            let mut s: Vec<String> = Vec::new();
            s.push(x);
            proof {
                assert(strings_view(s@) =~= seq![x@]);
            }
            Some(s)
        },
    }
}

/// Whether a list is absent or empty.
pub open spec fn none_or_empty(v: Option<Seq<Seq<char>>>) -> bool {
    match v {
        Some(s) => s.len() == 0,
        None => true,
    }
}

/// A subscriber to the markets of a stream.
#[derive(Debug)]
pub struct MarketSubscriber {
    filter: MarketFilter,
    /// The list of market data fields to subscribe to.
    market_data_fields: Vec<Fields>,
    /// For depth-based ladders the number of levels to send (1 to 10).
    ladder_level: Option<LadderLevel>,
}

/// What a market subscriber holds, as a mathematical value.
#[verifier::ext_equal]
pub struct MarketSubscriberView {
    pub filter: MarketFilterView,
    pub market_data_fields: Seq<Fields>,
    pub ladder_level: Option<LadderLevel>,
}

impl View for MarketSubscriber {
    type V = MarketSubscriberView;

    closed spec fn view(&self) -> MarketSubscriberView {
        MarketSubscriberView {
            filter: self.filter@,
            market_data_fields: self.market_data_fields@,
            ladder_level: self.ladder_level,
        }
    }
}

/// The market subscription that (re)subscribes to the markets of `v`, with a
/// reset clock, segmentation and a heartbeat every second.
pub open spec fn is_market_resubscription(r: RequestMessage, v: MarketSubscriberView) -> bool {
    match r {
        RequestMessage::MarketSubscription(m) => {
            &&& m.id.is_none()
            &&& m.clk.is_none()
            &&& m.initial_clk.is_none()
            &&& m.conflate_ms.is_none()
            &&& m.segmentation_enabled == Some(true)
            &&& m.heartbeat_ms == Some(1000i64)
            &&& m.market_filter matches Some(f) && f@ == v.filter
            &&& m.market_data_filter matches Some(d) && d.ladder_levels == v.ladder_level && opt_seq(
                d.fields,
            ) == Some(v.market_data_fields)
        },
        _ => false,
    }
}

/// The market subscription to the market that does not exist, which stands for
/// no subscription.
pub open spec fn is_market_unsubscription(r: RequestMessage) -> bool {
    match r {
        RequestMessage::MarketSubscription(m) => {
            &&& m.id.is_none()
            &&& m.clk.is_none()
            &&& m.initial_clk.is_none()
            &&& m.conflate_ms.is_none()
            &&& m.segmentation_enabled == Some(true)
            &&& m.heartbeat_ms == Some(1000i64)
            &&& m.market_filter matches Some(f) && f@ == (MarketFilterView {
                market_ids: Some(seq![absent_market()]),
                ..empty_market_filter()
            })
            &&& m.market_data_filter matches Some(d) && d.ladder_levels.is_none() && d.fields.is_none()
        },
        _ => false,
    }
}

impl MarketSubscriber {
    /// Creates a subscriber with the given filter, fields and ladder level.
    pub fn new(
        filter: MarketFilter,
        market_data_fields: Vec<Fields>,
        ladder_level: Option<LadderLevel>,
    ) -> (r: Self)
        ensures
            r@ == (MarketSubscriberView {
                filter: filter@,
                market_data_fields: market_data_fields@,
                ladder_level,
            }),
    {
        MarketSubscriber { filter, market_data_fields, ladder_level }
    }

    /// Adds a market to the filter; returns the resubscription to send.
    pub fn subscribe_to_market(&mut self, market_id: MarketId) -> (r: RequestMessage)
        ensures
            final(self)@ == (MarketSubscriberView {
                filter: MarketFilterView {
                    market_ids: Some(
                        match old(self)@.filter.market_ids {
                            Some(s) => s.push(market_id@),
                            None => seq![market_id@],
                        },
                    ),
                    ..old(self)@.filter
                },
                ..old(self)@
            }),
            is_market_resubscription(r, final(self)@),
    {
        let ids = self.filter.market_ids.take();
        self.filter.market_ids = pushed(ids, market_id);
        proof {
            assert(self@.filter =~= MarketFilterView {
                market_ids: Some(
                    match old(self)@.filter.market_ids {
                        Some(s) => s.push(market_id@),
                        None => seq![market_id@],
                    },
                ),
                ..old(self)@.filter
            });
        }
        self.resubscribe()
    }

    /// Removes a market from the filter and returns the request to send: the
    /// resubscription to the markets left or, when none is left, the
    /// unsubscription (the filter is then reset).
    pub fn unsubscribe_from_market(&mut self, market_id: &MarketId) -> (r: RequestMessage)
        ensures
            ({
                let left = match old(self)@.filter.market_ids {
                    Some(s) => Some(without(s, market_id@)),
                    None => None,
                };
                if none_or_empty(left) {
                    &&& final(self)@ == (MarketSubscriberView {
                        filter: empty_market_filter(),
                        ..old(self)@
                    })
                    &&& is_market_unsubscription(r)
                } else {
                    &&& final(self)@ == (MarketSubscriberView {
                        filter: MarketFilterView { market_ids: left, ..old(self)@.filter },
                        ..old(self)@
                    })
                    &&& is_market_resubscription(r, final(self)@)
                }
            }),
    {
        let left = match &self.filter.market_ids {
            Some(v) => Some(remove_all(v, market_id)),
            None => None,
        };
        let empty = match &left {
            Some(v) => v.len() == 0,
            None => true,
        };
        self.filter.market_ids = left;
        if empty {
            self.unsubscribe_from_all_markets()
        } else {
            self.resubscribe()
        }
    }

    /// Resets the filter and returns the unsubscription to send: a subscription
    /// to a market that does not exist.
    pub fn unsubscribe_from_all_markets(&mut self) -> (r: RequestMessage)
        ensures
            final(self)@ == (MarketSubscriberView { filter: empty_market_filter(), ..old(self)@ }),
            is_market_unsubscription(r),
    {
        let market_that_does_not_exist: String = "1.23456789".to_owned();
        self.filter = MarketFilter::default();
        let mut ids: Vec<String> = Vec::new();
        ids.push(market_that_does_not_exist);
        proof {
            assert(strings_view(ids@) =~= seq![absent_market()]);
        }
        let filter = MarketFilter { market_ids: Some(ids), ..MarketFilter::default() };
        RequestMessage::MarketSubscription(
            MarketSubscriptionMessage {
                id: None,
                segmentation_enabled: Some(true),
                clk: None,
                heartbeat_ms: Some(1000),
                initial_clk: None,
                market_filter: Some(filter),
                conflate_ms: None,
                market_data_filter: Some(MarketDataFilter { ladder_levels: None, fields: None }),
            },
        )
    }

    /// The resubscription to the markets of the filter.
    pub fn resubscribe(&self) -> (r: RequestMessage)
        ensures
            is_market_resubscription(r, self@),
    {
        RequestMessage::MarketSubscription(
            MarketSubscriptionMessage {
                id: None,
                clk: None,
                initial_clk: None,
                segmentation_enabled: Some(true),
                heartbeat_ms: Some(1000),
                market_filter: Some(self.filter.copy()),
                conflate_ms: None,
                market_data_filter: Some(
                    MarketDataFilter {
                        ladder_levels: self.ladder_level,
                        fields: Some(copy_vec(&self.market_data_fields)),
                    },
                ),
            },
        )
    }

    /// The current market filter.
    pub fn filter(&self) -> (r: &MarketFilter)
        ensures
            r@ == self@.filter,
    {
        &self.filter
    }

    /// Replaces the filter; returns the resubscription to send.
    pub fn set_filter(&mut self, filter: MarketFilter) -> (r: RequestMessage)
        ensures
            final(self)@ == (MarketSubscriberView { filter: filter@, ..old(self)@ }),
            is_market_resubscription(r, final(self)@),
    {
        self.filter = filter;
        self.resubscribe()
    }

    /// The current ladder level.
    pub fn ladder_level(&self) -> (r: Option<&LadderLevel>)
        ensures
            r == match self@.ladder_level {
                Some(l) => Some(&l),
                None => None::<&LadderLevel>,
            },
    {
        self.ladder_level.as_ref()
    }

    /// Replaces the ladder level; returns the resubscription to send.
    pub fn set_ladder_level(&mut self, ladder_level: Option<LadderLevel>) -> (r: RequestMessage)
        ensures
            final(self)@ == (MarketSubscriberView { ladder_level, ..old(self)@ }),
            is_market_resubscription(r, final(self)@),
    {
        self.ladder_level = ladder_level;
        self.resubscribe()
    }

    /// The current market data fields.
    pub fn market_data_fields(&self) -> (r: &Vec<Fields>)
        ensures
            r@ == self@.market_data_fields,
    {
        &self.market_data_fields
    }

    /// Replaces the market data fields; returns the resubscription to send.
    pub fn set_market_data_fields(&mut self, market_data_fields: Vec<Fields>) -> (r: RequestMessage)
        ensures
            final(self)@ == (MarketSubscriberView {
                market_data_fields: market_data_fields@,
                ..old(self)@
            }),
            is_market_resubscription(r, final(self)@),
    {
        self.market_data_fields = market_data_fields;
        self.resubscribe()
    }
}

/// A subscriber to the orders of a stream.
#[derive(Debug)]
pub struct OrderSubscriber {
    filter: OrderFilter,
}

impl View for OrderSubscriber {
    type V = OrderFilterView;

    closed spec fn view(&self) -> OrderFilterView {
        self.filter@
    }
}

/// The order subscription that (re)subscribes with filter `f`, with a reset
/// clock and segmentation.
pub open spec fn is_order_resubscription(r: RequestMessage, f: OrderFilterView) -> bool {
    match r {
        RequestMessage::OrderSubscription(m) => {
            &&& m.id.is_none()
            &&& m.clk.is_none()
            &&& m.initial_clk.is_none()
            &&& m.conflate_ms.is_none()
            &&& m.heartbeat_ms.is_none()
            &&& m.segmentation_enabled == Some(true)
            &&& m.order_filter matches Some(o) && o@ == f
        },
        _ => false,
    }
}

/// The order subscription to the strategy that does not exist, which stands for
/// no subscription.
pub open spec fn is_order_unsubscription(r: RequestMessage) -> bool {
    match r {
        RequestMessage::OrderSubscription(m) => {
            &&& m.id.is_none()
            &&& m.clk.is_none()
            &&& m.initial_clk.is_none()
            &&& m.conflate_ms.is_none()
            &&& m.heartbeat_ms.is_none()
            &&& m.segmentation_enabled == Some(true)
            &&& m.order_filter matches Some(o) && o@ == (OrderFilterView {
                include_overall_position: Some(false),
                account_ids: None,
                customer_strategy_refs: Some(seq![absent_strategy()]),
                partition_matched_by_strategy_ref: None,
            })
        },
        _ => false,
    }
}

impl OrderSubscriber {
    /// Creates a subscriber with the given filter.
    pub fn new(filter: OrderFilter) -> (r: Self)
        ensures
            r@ == filter@,
    {
        OrderSubscriber { filter }
    }

    /// Adds a strategy to the filter; returns the resubscription to send.
    pub fn subscribe_to_strategy_updates(&mut self, strategy_ref: CustomerStrategyRef) -> (r:
        RequestMessage)
        ensures
            final(self)@ == (OrderFilterView {
                customer_strategy_refs: Some(
                    match old(self)@.customer_strategy_refs {
                        Some(s) => s.push(strategy_ref@),
                        None => seq![strategy_ref@],
                    },
                ),
                ..old(self)@
            }),
            is_order_resubscription(r, final(self)@),
    {
        let refs = self.filter.customer_strategy_refs.take();
        self.filter.customer_strategy_refs = pushed(refs, strategy_ref);
        proof {
            assert(self@ =~= OrderFilterView {
                customer_strategy_refs: Some(
                    match old(self)@.customer_strategy_refs {
                        Some(s) => s.push(strategy_ref@),
                        None => seq![strategy_ref@],
                    },
                ),
                ..old(self)@
            });
        }
        self.resubscribe()
    }

    /// Removes a strategy from the filter and returns the request to send: the
    /// resubscription with the strategies left or, when none is left, the
    /// unsubscription (the filter is then reset).
    pub fn unsubscribe_from_strategy_updates(&mut self, strategy_ref: &CustomerStrategyRef) -> (r:
        RequestMessage)
        ensures
            ({
                let left = match old(self)@.customer_strategy_refs {
                    Some(s) => Some(without(s, strategy_ref@)),
                    None => None,
                };
                if none_or_empty(left) {
                    &&& final(self)@ == crate::messages::empty_order_filter()
                    &&& is_order_unsubscription(r)
                } else {
                    &&& final(self)@ == (OrderFilterView { customer_strategy_refs: left, ..old(self)@ })
                    &&& is_order_resubscription(r, final(self)@)
                }
            }),
    {
        let left = match &self.filter.customer_strategy_refs {
            Some(v) => Some(remove_all(v, strategy_ref)),
            None => None,
        };
        let empty = match &left {
            Some(v) => v.len() == 0,
            None => true,
        };
        self.filter.customer_strategy_refs = left;
        if empty {
            self.unsubscribe_from_all_markets()
        } else {
            self.resubscribe()
        }
    }

    /// Resets the filter and returns the unsubscription to send: a subscription
    /// to a strategy that does not exist.
    pub fn unsubscribe_from_all_markets(&mut self) -> (r: RequestMessage)
        ensures
            final(self)@ == crate::messages::empty_order_filter(),
            is_order_unsubscription(r),
    {
        let strategy_that_does_not_exist: String = "dosent exist   ".to_owned();
        self.filter = OrderFilter::default();
        let mut refs: Vec<String> = Vec::new();
        refs.push(strategy_that_does_not_exist);
        proof {
            assert(strings_view(refs@) =~= seq![absent_strategy()]);
        }
        RequestMessage::OrderSubscription(
            OrderSubscriptionMessage {
                id: None,
                segmentation_enabled: Some(true),
                clk: None,
                heartbeat_ms: None,
                initial_clk: None,
                order_filter: Some(
                    OrderFilter {
                        include_overall_position: Some(false),
                        account_ids: None,
                        customer_strategy_refs: Some(refs),
                        partition_matched_by_strategy_ref: None,
                    },
                ),
                conflate_ms: None,
            },
        )
    }

    /// The resubscription with the current filter.
    pub fn resubscribe(&self) -> (r: RequestMessage)
        ensures
            is_order_resubscription(r, self@),
    {
        RequestMessage::OrderSubscription(
            OrderSubscriptionMessage {
                id: None,
                clk: None,
                initial_clk: None,
                segmentation_enabled: Some(true),
                heartbeat_ms: None,
                order_filter: Some(self.filter.copy()),
                conflate_ms: None,
            },
        )
    }

    /// The current order filter.
    pub fn filter(&self) -> (r: &OrderFilter)
        ensures
            r@ == self@,
    {
        &self.filter
    }

    /// Replaces the filter; returns the resubscription to send.
    pub fn set_filter(&mut self, filter: OrderFilter) -> (r: RequestMessage)
        ensures
            final(self)@ == filter@,
            is_order_resubscription(r, final(self)@),
    {
        self.filter = filter;
        self.resubscribe()
    }
}

} // verus!
