use betfair_stream_api::ladder::UpdateSet2;
use betfair_stream_api::messages::{
    ChangeType, ConnectionMessage, DatasetChangeMessage, MarketChange, MarketDefinition,
    OrderMarketChange, OrderRunnerChange, ResponseMessage, RunnerChange, StatusMessage,
    StatusSuccess, StreamMarketDefinitionStatus,
};
use betfair_stream_api::tracker::{MarketStreamTracker, OrderStreamTracker, StreamState};
use betfair_stream_api::{Cache, CachedMessage, Forwarder, MessageProcessor};

fn market_msg<T>(ct: Option<ChangeType>, pt: Option<i64>, data: Option<Vec<T>>) -> DatasetChangeMessage<T> {
    DatasetChangeMessage {
        id: Some(1),
        change_type: ct,
        clock: Some("CLK".to_string()),
        initial_clock: Some("INIT".to_string()),
        publish_time: pt,
        conflate_ms: None,
        heartbeat_ms: None,
        data,
    }
}

fn mc(id: &str, tv: Option<u64>, full: Option<bool>) -> MarketChange {
    MarketChange { market_id: Some(id.to_string()), total_value: tv, full_image: full, ..Default::default() }
}

#[test]
fn market_tracker_returns_books_in_change_order() {
    let mut t = MarketStreamTracker::new();
    let (out, img) = t.process(market_msg(None, Some(10), Some(vec![mc("1.1", Some(5), None), mc("1.2", Some(6), None)])));
    assert!(img.0);
    let out = out.unwrap();
    assert_eq!(out.len(), 2);
    assert_eq!(out[0].market_id(), "1.1");
    assert_eq!(out[1].total_matched(), 6);
    // an existing market without full image is not a new image
    let (out, img) = t.process(market_msg(None, Some(11), Some(vec![mc("1.1", Some(9), None)])));
    assert!(!img.0);
    assert_eq!(out.unwrap()[0].total_matched(), 9);
    assert_eq!(t.states().len(), 2);
}

#[test]
fn market_tracker_repeated_market_reports_final_state_twice() {
    let mut t = MarketStreamTracker::new();
    let (out, _) = t.process(market_msg(None, Some(10), Some(vec![mc("1.1", Some(5), None), mc("1.1", Some(7), None)])));
    let out = out.unwrap();
    assert_eq!(out.len(), 2);
    assert_eq!(out[0].total_matched(), 7);
    assert_eq!(out[1].total_matched(), 7);
}

#[test]
fn market_tracker_full_image_resets_market() {
    let mut t = MarketStreamTracker::new();
    t.process(market_msg(None, Some(10), Some(vec![MarketChange {
        market_id: Some("1.1".to_string()),
        runner_change: Some(vec![RunnerChange { id: Some(3), ..Default::default() }]),
        ..Default::default()
    }])));
    let (out, img) = t.process(market_msg(None, Some(20), Some(vec![mc("1.1", None, Some(true))])));
    assert!(img.0);
    let out = out.unwrap();
    assert!(out[0].runners().is_empty());
    assert_eq!(out[0].publish_time(), 20);
}

#[test]
fn market_tracker_needs_publish_time() {
    let mut t = MarketStreamTracker::new();
    let (out, img) = t.process(market_msg(None, None, Some(vec![mc("1.1", Some(5), None)])));
    assert!(out.is_none());
    assert!(!img.0);
    assert!(t.states().is_empty());
    let (out, _) = t.process(market_msg::<MarketChange>(None, Some(1), None));
    assert!(out.is_none());
    let (out, _) = t.process(market_msg::<MarketChange>(None, Some(1), Some(vec![])));
    assert_eq!(out.unwrap().len(), 0);
}

#[test]
fn clear_stale_cache_drops_only_old_closed_markets() {
    let mut t = MarketStreamTracker::new();
    let open = MarketChange {
        market_id: Some("1.open".to_string()),
        market_definition: Some(MarketDefinition { status: StreamMarketDefinitionStatus::Open, ..Default::default() }),
        ..Default::default()
    };
    t.process(market_msg(None, Some(0), Some(vec![open, mc("1.closed", None, None)])));
    t.process(market_msg(None, Some(28_800_000), Some(vec![mc("1.recent", None, None)])));
    t.clear_stale_cache(28_800_000);
    assert_eq!(t.states().len(), 3);
    t.clear_stale_cache(28_800_001);
    let ids: Vec<String> = t.states().iter().map(|m| m.market_id().clone()).collect();
    assert_eq!(ids, vec!["1.open".to_string(), "1.recent".to_string()]);
}

fn oc(id: &str, closed: Option<bool>, full: Option<bool>) -> OrderMarketChange {
    OrderMarketChange {
        market_id: id.to_string(),
        account_id: None,
        closed,
        full_image: full,
        order_runner_change: Some(vec![OrderRunnerChange {
            id: 9,
            handicap: None,
            full_image: None,
            matched_lays: Some(vec![UpdateSet2(150, 10)]),
            matched_backs: None,
            unmatched_orders: None,
            strategy_matches: None,
        }]),
    }
}

#[test]
fn order_tracker_none_when_nothing_changed() {
    let mut t = OrderStreamTracker::new();
    let (out, _) = t.process(market_msg::<OrderMarketChange>(None, Some(1), Some(vec![])));
    assert!(out.is_none());
    let (out, img) = t.process(market_msg(None, Some(1), Some(vec![oc("1.5", None, None)])));
    assert!(img.0);
    let out = out.unwrap();
    assert_eq!(out.len(), 1);
    assert_eq!(out[0].runners()[0].1.matched_lays.book, vec![(150, 10)]);
    assert!(!out[0].is_closed());
    assert!(out[0].last_change().is_some());
}

#[test]
fn order_tracker_drops_stale_closed_books() {
    let mut t = OrderStreamTracker::new();
    t.process(market_msg(None, Some(0), Some(vec![oc("1.5", Some(true), None), oc("1.6", None, None)])));
    t.clear_stale_cache(28_800_001);
    let (out, img) = t.process(market_msg(None, Some(28_800_002), Some(vec![oc("1.5", None, None)])));
    // the closed book was dropped, so the change starts a new one
    assert!(img.0);
    assert!(!out.unwrap()[0].is_closed());
}

#[test]
fn stream_state_heartbeat_records_clocks_only() {
    let mut s = StreamState::new();
    let out = s.market_change_update(market_msg(Some(ChangeType::Heartbeat), Some(1), Some(vec![mc("1.1", None, None)])));
    assert!(out.is_none());
    assert_eq!(s.update_clk, Some("CLK".to_string()));
    assert_eq!(s.initial_clock, Some("INIT".to_string()));
    assert!(s.market_stream_tracker.states().is_empty());
}

#[test]
fn stream_state_delta_before_clock_keeps_clocks() {
    let mut s = StreamState::new();
    let out = s.market_change_update(market_msg(None, Some(1), Some(vec![mc("1.1", None, None)])));
    assert_eq!(out.unwrap().len(), 1);
    assert_eq!(s.update_clk, None);
    let out = s.order_change_update(market_msg(Some(ChangeType::SubImage), Some(1), Some(vec![oc("1.1", None, None)])));
    assert_eq!(out.unwrap().len(), 1);
    assert_eq!(s.update_clk, Some("CLK".to_string()));
}

#[test]
fn cache_forwards_connection_and_status() {
    let mut cache = Cache::new();
    let c = ConnectionMessage { id: Some(1), connection_id: Some("x".to_string()) };
    match cache.process_message(ResponseMessage::Connection(c.clone())) {
        Some(CachedMessage::Connection(m)) => assert_eq!(m, c),
        other => panic!("unexpected {other:?}"),
    }
    let st = StatusMessage::Success(StatusSuccess {
        id: None,
        connection_closed: Some(false),
        connection_id: None,
        connections_available: Some(3),
    });
    match cache.process_message(ResponseMessage::Status(st.clone())) {
        Some(CachedMessage::Status(m)) => assert_eq!(m, st),
        other => panic!("unexpected {other:?}"),
    }
}

#[test]
fn cache_returns_changed_books() {
    let mut cache = Cache::new();
    let out = cache.process_message(ResponseMessage::MarketChange(market_msg(
        Some(ChangeType::SubImage),
        Some(5),
        Some(vec![mc("1.9", Some(42), None)]),
    )));
    match out {
        Some(CachedMessage::MarketChange(v)) => {
            assert_eq!(v.len(), 1);
            assert_eq!(v[0].total_matched(), 42);
        }
        other => panic!("unexpected {other:?}"),
    }
    match cache.process_message(ResponseMessage::MarketChange(market_msg(Some(ChangeType::Heartbeat), Some(6), None))) {
        Some(CachedMessage::Connection(c)) => {
            assert_eq!(c, ConnectionMessage { id: Some(1), connection_id: None });
        }
        other => panic!("unexpected {other:?}"),
    }
    match cache.process_message(ResponseMessage::OrderChange(market_msg(Some(ChangeType::Heartbeat), Some(7), None))) {
        Some(CachedMessage::Connection(c)) => assert_eq!(c.id, Some(1)),
        other => panic!("unexpected {other:?}"),
    }
    // a delta that changes nothing yields nothing
    assert!(cache
        .process_message(ResponseMessage::OrderChange(market_msg(None, Some(8), Some(vec![]))))
        .is_none());
    assert_eq!(cache.state().market_stream_tracker.states().len(), 1);
}

#[test]
fn forwarder_forwards_everything() {
    let mut f = Forwarder;
    let c = ConnectionMessage { id: Some(2), connection_id: None };
    assert_eq!(f.process_message(ResponseMessage::Connection(c.clone())), Some(ResponseMessage::Connection(c)));
}

fn rc(id: u64, tv: u64) -> RunnerChange {
    RunnerChange { id: Some(id), total_value: Some(tv), ..Default::default() }
}

fn mc_runners(id: &str, full: Option<bool>, runners: Vec<RunnerChange>) -> MarketChange {
    MarketChange { market_id: Some(id.to_string()), full_image: full, runner_change: Some(runners), ..Default::default() }
}

#[test]
fn full_image_gives_the_same_book_whatever_the_cache_held() {
    let mut a = MarketStreamTracker::new();
    let mut b = MarketStreamTracker::new();
    a.process(market_msg(None, Some(1), Some(vec![mc_runners("1.1", None, vec![rc(1, 10), rc(2, 20)])])));
    b.process(market_msg(None, Some(2), Some(vec![mc_runners("1.1", None, vec![rc(3, 30)])])));
    let image = || market_msg(None, Some(5), Some(vec![mc_runners("1.1", Some(true), vec![rc(7, 70)])]));
    let (ra, _) = a.process(image());
    let (rb, _) = b.process(image());
    let (ra, rb) = (ra.unwrap(), rb.unwrap());
    for book in [&ra[0], &rb[0]] {
        assert_eq!(book.runners().len(), 1);
        assert_eq!(book.runners()[0].1.total_matched(), Some(70));
        assert_eq!(book.publish_time(), 5);
    }
}

#[test]
fn a_market_change_leaves_other_markets_alone() {
    let mut t = MarketStreamTracker::new();
    t.process(market_msg(None, Some(1), Some(vec![mc("1.1", Some(5), None), mc("1.2", Some(6), None)])));
    t.process(market_msg(None, Some(2), Some(vec![mc("1.1", Some(9), Some(true))])));
    let states = t.states();
    let other = states.iter().find(|m| m.market_id() == "1.2").unwrap();
    assert_eq!(other.total_matched(), 6);
    assert_eq!(other.publish_time(), 1);
}

#[test]
fn order_full_image_gives_the_same_book_whatever_the_cache_held() {
    let mut a = OrderStreamTracker::new();
    let mut b = OrderStreamTracker::new();
    a.process(market_msg(None, Some(1), Some(vec![oc("1.5", None, None)])));
    let mut other = oc("1.5", None, None);
    other.order_runner_change.as_mut().unwrap()[0].id = 4;
    b.process(market_msg(None, Some(2), Some(vec![other])));
    let (ra, _) = a.process(market_msg(None, Some(3), Some(vec![oc("1.5", None, Some(true))])));
    let (rb, _) = b.process(market_msg(None, Some(3), Some(vec![oc("1.5", None, Some(true))])));
    let (ra, rb) = (ra.unwrap(), rb.unwrap());
    assert_eq!(ra[0].runners().len(), 1);
    assert_eq!(rb[0].runners().len(), 1);
    assert_eq!(ra[0].runners()[0].0, rb[0].runners()[0].0);
    assert_eq!(ra[0].runners()[0].1.matched_lays.book, rb[0].runners()[0].1.matched_lays.book);
}

#[test]
fn an_order_change_leaves_other_order_books_alone() {
    let mut t = OrderStreamTracker::new();
    t.process(market_msg(None, Some(1), Some(vec![oc("1.5", None, None), oc("1.6", None, None)])));
    t.process(market_msg(None, Some(2), Some(vec![oc("1.5", Some(true), Some(true))])));
    let mut more = oc("1.6", None, None);
    more.order_runner_change.as_mut().unwrap()[0].matched_lays = Some(vec![UpdateSet2(151, 5)]);
    let (out, img) = t.process(market_msg(None, Some(3), Some(vec![more])));
    assert!(!img.0);
    let out = out.unwrap();
    assert_eq!(out[0].runners()[0].1.matched_lays.book, vec![(150, 10), (151, 5)]);
}

#[test]
fn order_heartbeat_keeps_the_caches() {
    let mut s = StreamState::new();
    s.order_change_update(market_msg(Some(ChangeType::SubImage), Some(1), Some(vec![oc("1.1", None, None)])));
    let out = s.order_change_update(market_msg(Some(ChangeType::Heartbeat), Some(2), Some(vec![oc("1.2", None, None)])));
    assert!(out.is_none());
    let out = s.order_change_update(market_msg(None, Some(3), Some(vec![oc("1.1", None, None)])));
    // the heartbeat did not create a book for 1.2, and 1.1 is still known
    assert_eq!(out.unwrap().len(), 1);
}

#[test]
fn new_stream_state_reads_the_clock() {
    let s = StreamState::new();
    // milliseconds since the Unix epoch: any machine running this is past 2020
    assert!(s.time_created > 1_577_836_800_000);
    assert!(s.time_updated >= s.time_created);
}

#[test]
fn default_stream_state_is_empty() {
    let s = StreamState::default();
    assert!(s.market_stream_tracker.states().is_empty());
    assert_eq!(s.update_clk, None);
    assert_eq!(s.initial_clock, None);
}

#[test]
fn new_cache_starts_without_ids_or_clocks() {
    let cache = Cache::new();
    let s = cache.state();
    assert_eq!(s.stream_id, None);
    assert_eq!(s.max_latency_ms, None);
    assert_eq!(s.unique_id, None);
    assert_eq!(s.update_clk, None);
    assert_eq!(s.initial_clock, None);
    assert!(s.market_stream_tracker.states().is_empty());
}
