use betfair_stream_api::messages::{
    Fields, LadderLevel, MarketDataFilter, MarketFilter, MarketSubscriptionMessage, OrderFilter,
    OrderSubscriptionMessage, RequestMessage,
};
use betfair_stream_api::subscriber::{MarketSubscriber, OrderSubscriber};

fn market_sub(req: RequestMessage) -> MarketSubscriptionMessage {
    match req {
        RequestMessage::MarketSubscription(m) => m,
        other => panic!("not a market subscription: {other:?}"),
    }
}

fn order_sub(req: RequestMessage) -> OrderSubscriptionMessage {
    match req {
        RequestMessage::OrderSubscription(m) => m,
        other => panic!("not an order subscription: {other:?}"),
    }
}

fn ids(v: &[&str]) -> Option<Vec<String>> {
    Some(v.iter().map(|s| s.to_string()).collect())
}

#[test]
fn subscribing_adds_the_market_and_resubscribes() {
    let mut s = MarketSubscriber::new(
        MarketFilter::default(),
        vec![Fields::ExAllOffers, Fields::ExMarketDef],
        Some(LadderLevel(3)),
    );
    let m = market_sub(s.subscribe_to_market("1.1".to_string()));
    assert_eq!(s.filter().market_ids, ids(&["1.1"]));
    assert_eq!(m.id, None);
    assert_eq!(m.clk, None);
    assert_eq!(m.initial_clk, None);
    assert_eq!(m.conflate_ms, None);
    assert_eq!(m.segmentation_enabled, Some(true));
    assert_eq!(m.heartbeat_ms, Some(1000));
    assert_eq!(m.market_filter.unwrap().market_ids, ids(&["1.1"]));
    assert_eq!(
        m.market_data_filter,
        Some(MarketDataFilter {
            ladder_levels: Some(LadderLevel(3)),
            fields: Some(vec![Fields::ExAllOffers, Fields::ExMarketDef]),
        })
    );

    let m = market_sub(s.subscribe_to_market("1.2".to_string()));
    assert_eq!(m.market_filter.unwrap().market_ids, ids(&["1.1", "1.2"]));
}

#[test]
fn unsubscribing_one_of_two_markets_resubscribes_to_the_other() {
    let mut s = MarketSubscriber::new(MarketFilter::default(), vec![], None);
    s.subscribe_to_market("1.1".to_string());
    s.subscribe_to_market("1.2".to_string());
    let m = market_sub(s.unsubscribe_from_market(&"1.1".to_string()));
    assert_eq!(s.filter().market_ids, ids(&["1.2"]));
    assert_eq!(m.heartbeat_ms, Some(1000));
    assert_eq!(m.market_filter.unwrap().market_ids, ids(&["1.2"]));
}

#[test]
fn unsubscribing_the_last_market_sends_the_unsubscription() {
    let mut s = MarketSubscriber::new(MarketFilter::default(), vec![Fields::ExLtp], None);
    s.subscribe_to_market("1.1".to_string());
    let m = market_sub(s.unsubscribe_from_market(&"1.1".to_string()));
    assert_eq!(*s.filter(), MarketFilter::default());
    assert_eq!(m.heartbeat_ms, Some(1000));
    assert_eq!(m.segmentation_enabled, Some(true));
    let f = m.market_filter.unwrap();
    assert_eq!(f.market_ids, ids(&["1.23456789"]));
    assert_eq!(f.country_codes, None);
    assert_eq!(m.market_data_filter, Some(MarketDataFilter { ladder_levels: None, fields: None }));
    // the fields are kept
    assert_eq!(*s.market_data_fields(), vec![Fields::ExLtp]);
}

#[test]
fn unsubscribing_without_any_market_sends_the_unsubscription() {
    let mut s = MarketSubscriber::new(MarketFilter::default(), vec![], None);
    let m = market_sub(s.unsubscribe_from_market(&"1.9".to_string()));
    assert_eq!(m.market_filter.unwrap().market_ids, ids(&["1.23456789"]));
}

#[test]
fn setters_replace_and_resubscribe() {
    let mut s = MarketSubscriber::new(MarketFilter::default(), vec![], None);
    let m = market_sub(s.set_ladder_level(Some(LadderLevel(5))));
    assert_eq!(s.ladder_level(), Some(&LadderLevel(5)));
    assert_eq!(m.market_data_filter.unwrap().ladder_levels, Some(LadderLevel(5)));

    let m = market_sub(s.set_market_data_fields(vec![Fields::ExTraded]));
    assert_eq!(*s.market_data_fields(), vec![Fields::ExTraded]);
    assert_eq!(m.market_data_filter.unwrap().fields, Some(vec![Fields::ExTraded]));

    let filter = MarketFilter { venues: ids(&["Ascot"]), ..MarketFilter::default() };
    let m = market_sub(s.set_filter(filter));
    assert_eq!(s.filter().venues, ids(&["Ascot"]));
    assert_eq!(m.market_filter.unwrap().venues, ids(&["Ascot"]));

    let m = market_sub(s.resubscribe());
    assert_eq!(m.market_filter.unwrap().venues, ids(&["Ascot"]));
}

#[test]
fn order_subscriber_adds_and_removes_strategies() {
    let mut s = OrderSubscriber::new(OrderFilter::default());
    let m = order_sub(s.subscribe_to_strategy_updates("alpha".to_string()));
    assert_eq!(m.heartbeat_ms, None);
    assert_eq!(m.segmentation_enabled, Some(true));
    assert_eq!(m.order_filter.unwrap().customer_strategy_refs, ids(&["alpha"]));
    s.subscribe_to_strategy_updates("beta".to_string());
    assert_eq!(s.filter().customer_strategy_refs, ids(&["alpha", "beta"]));

    let m = order_sub(s.unsubscribe_from_strategy_updates(&"alpha".to_string()));
    assert_eq!(s.filter().customer_strategy_refs, ids(&["beta"]));
    assert_eq!(m.order_filter.unwrap().customer_strategy_refs, ids(&["beta"]));

    let m = order_sub(s.unsubscribe_from_strategy_updates(&"beta".to_string()));
    assert_eq!(*s.filter(), OrderFilter::default());
    let f = m.order_filter.unwrap();
    assert_eq!(f.customer_strategy_refs, ids(&["dosent exist   "]));
    assert_eq!(f.include_overall_position, Some(false));
}

#[test]
fn order_subscriber_set_filter_resubscribes() {
    let mut s = OrderSubscriber::new(OrderFilter::default());
    let filter = OrderFilter { account_ids: Some(vec![7]), ..OrderFilter::default() };
    let m = order_sub(s.set_filter(filter));
    assert_eq!(s.filter().account_ids, Some(vec![7]));
    assert_eq!(m.order_filter.unwrap().account_ids, Some(vec![7]));
    let m = order_sub(s.unsubscribe_from_all_markets());
    assert_eq!(*s.filter(), OrderFilter::default());
    assert_eq!(m.order_filter.unwrap().customer_strategy_refs, ids(&["dosent exist   "]));
}

#[test]
fn unsubscribing_twice_is_like_once() {
    let mut s = MarketSubscriber::new(MarketFilter::default(), vec![], None);
    s.subscribe_to_market("1.1".to_string());
    s.subscribe_to_market("1.2".to_string());
    s.subscribe_to_market("1.1".to_string());
    let first = market_sub(s.unsubscribe_from_market(&"1.1".to_string()));
    assert_eq!(s.filter().market_ids, ids(&["1.2"]));
    let second = market_sub(s.unsubscribe_from_market(&"1.1".to_string()));
    assert_eq!(s.filter().market_ids, ids(&["1.2"]));
    assert_eq!(first, second);
}
