use betfair_stream_api::available::Available;
use betfair_stream_api::ladder::UpdateSet2;
use betfair_stream_api::market_book::MarketBookCache;
use betfair_stream_api::messages::{
    BettingType, MarketChange, MarketDefinition, RunnerChange, RunnerDefinition, RunnerStatus,
    StreamMarketDefinitionStatus,
};
use betfair_stream_api::runner_book::RunnerBookCache;

// Prices and sizes are in hundredths; times in milliseconds since the epoch.

fn init() -> (String, i64, MarketBookCache) {
    let market_id = "1.23456789".to_string();
    let publish_time = 1_700_000_000_000;
    let market_book_cache = MarketBookCache::new(market_id.clone(), publish_time);
    (market_id, publish_time, market_book_cache)
}

fn runner<'a>(m: &'a MarketBookCache, id: u64) -> &'a RunnerBookCache {
    &m.runners().iter().find(|(k, _)| *k == (id, None)).unwrap().1
}

#[test]
fn market_book_cache_test_init() {
    let (market_id, publish_time, market_book_cache) = init();
    assert!(market_book_cache.active());
    assert_eq!(market_book_cache.market_id(), &market_id);
    assert_eq!(market_book_cache.publish_time(), publish_time);
    assert_eq!(market_book_cache.total_matched(), 0);
    assert_eq!(market_book_cache.market_definition(), None);
    assert!(market_book_cache.runners().is_empty());
}

#[test]
fn test_update_mc() {
    // {"op":"mcm","id":12345,"clk":"AKEIANcNANkP","pt":1478717720756,"mc":[{"id":"1.128149474","marketDefinition":{...}}]}
    let change = MarketChange {
        market_id: Some("1.128149474".to_string()),
        market_definition: Some(MarketDefinition {
            bsp_market: false,
            turn_in_play_enabled: true,
            number_of_winners: 1,
            bsp_reconciled: false,
            complete: true,
            in_play: true,
            cross_matching: true,
            runners_voidable: false,
            number_of_active_runners: 2,
            bet_delay: 5,
            status: StreamMarketDefinitionStatus::Suspended,
            runners: vec![
                RunnerDefinition {
                    status: RunnerStatus::Active,
                    sort_priority: 1,
                    id: Some(4520808),
                    handicap: None,
                    adjustment_factor: None,
                    bsp: None,
                    removal_date: None,
                },
                RunnerDefinition {
                    status: RunnerStatus::Active,
                    sort_priority: 2,
                    id: Some(7431682),
                    handicap: None,
                    adjustment_factor: None,
                    bsp: None,
                    removal_date: None,
                },
            ],
            version: 1488624717,
            persistence_enabled: true,
            market_base_rate: Some(500),
            event_id: Some("28009395".to_string()),
            event_type_id: Some("2".to_string()),
            betting_type: Some(BettingType::Odds),
            market_type: Some("GAME_BY_GAME_01_07".to_string()),
            market_time: Some(1478715300000),
            suspend_time: Some(1478715300000),
            regulators: vec!["MR_INT".to_string()],
            country_code: Some("CO".to_string()),
            discount_allowed: true,
            timezone: Some("UTC".to_string()),
            open_date: Some(1478715300000),
            ..Default::default()
        }),
        ..Default::default()
    };
    let market_change = vec![change];
    let mut init = init().2;
    for change in market_change {
        let tv = change.total_value;
        init.update_cache(change, 1478717720756, true);
        assert!(init.active());
        assert_eq!(init.total_matched(), tv.unwrap_or_default());
    }
    let d = init.market_definition().unwrap();
    assert_eq!(d.event_id.as_deref(), Some("28009395"));
    assert_eq!(d.market_type.as_deref(), Some("GAME_BY_GAME_01_07"));
    assert_eq!(d.market_base_rate, Some(500));
    assert_eq!(d.regulators, vec!["MR_INT".to_string()]);
}

#[test]
fn test_update_tv() {
    // {"op":"mcm","id":2,"clk":"AHMAcArtjjje","pt":1471370160471,"mc":[{"id":"1.126235656","tv":69.69}]}
    let market_change = vec![MarketChange {
        market_id: Some("1.126235656".to_string()),
        total_value: Some(6969),
        ..Default::default()
    }];
    let mut init = init().2;
    for change in market_change {
        let tv = change.total_value;
        init.update_cache(change, 1471370160471, true);
        assert!(init.active());
        assert_eq!(init.total_matched(), tv.unwrap_or_default());
    }
}

#[test]
fn test_update_multiple_rc() {
    let (market_id, _, mut init) = init();
    let data = vec![
        RunnerChange {
            available_to_back: Some(vec![UpdateSet2(101, 20000)]),
            id: Some(13536143),
            ..Default::default()
        },
        RunnerChange {
            available_to_lay: Some(vec![UpdateSet2(102, 20000)]),
            id: Some(13536143),
            ..Default::default()
        },
    ];
    let market_change = MarketChange {
        market_id: Some(market_id),
        runner_change: Some(data),
        ..Default::default()
    };
    init.update_cache(market_change, 1_700_000_000_001, true);
    assert!(init.active());
    assert_eq!(init.runners().len(), 1);
    assert_eq!(init.total_matched(), 0);
    assert_eq!(
        runner(&init, 13536143).available_to_back(),
        &Available::new(&[UpdateSet2(101, 20000)])
    );
    assert_eq!(
        runner(&init, 13536143).available_to_lay(),
        &Available::new(&[UpdateSet2(102, 20000)])
    );
}

#[test]
fn test_update_market_definition() {
    let mock_market_definition = MarketDefinition {
        bet_delay: 1,
        version: 234,
        complete: true,
        runners_voidable: false,
        status: StreamMarketDefinitionStatus::Open,
        bsp_reconciled: true,
        cross_matching: false,
        in_play: true,
        number_of_winners: 5,
        number_of_active_runners: 6,
        ..Default::default()
    };
    let (_, _, mut init) = init();
    init.update_market_definition(mock_market_definition.copy());
    assert_eq!(init.market_definition(), Some(&mock_market_definition));
}

#[test]
fn test_update_runner_cache_tv() {
    let (market_id, _, mut init) = init();
    {
        let market_change = MarketChange {
            market_id: Some(market_id.clone()),
            runner_change: Some(vec![RunnerChange {
                total_value: Some(12300),
                id: Some(13536143),
                ..Default::default()
            }]),
            ..Default::default()
        };
        init.update_cache(market_change, 1, true);
        assert_eq!(init.runners().iter().next().unwrap().1.total_matched(), Some(12300));
    }
    {
        let market_change = MarketChange {
            market_id: Some(market_id.clone()),
            runner_change: Some(vec![RunnerChange {
                traded: Some(vec![]),
                id: Some(13536143),
                ..Default::default()
            }]),
            ..Default::default()
        };
        init.update_cache(market_change, 2, true);
        assert_eq!(init.runners().iter().next().unwrap().1.total_matched(), Some(0));
    }
    {
        let market_change = MarketChange {
            market_id: Some(market_id.clone()),
            runner_change: Some(vec![RunnerChange {
                traded: Some(vec![UpdateSet2(1200, 200)]),
                id: Some(13536143),
                ..Default::default()
            }]),
            ..Default::default()
        };
        init.update_cache(market_change, 3, true);
        assert_eq!(init.runners().iter().next().unwrap().1.total_matched(), Some(200));
    }
}

#[test]
fn test_update_market_cache_tv() {
    let (market_id, _, mut init) = init();
    {
        let market_change = MarketChange {
            market_id: Some(market_id.clone()),
            runner_change: Some(vec![RunnerChange {
                total_value: Some(12300),
                id: Some(13536143),
                ..Default::default()
            }]),
            ..Default::default()
        };
        init.update_cache(market_change, 1, true);
        assert_eq!(init.total_matched(), 0);
    }
    {
        let market_change = MarketChange {
            market_id: Some(market_id.clone()),
            runner_change: Some(vec![RunnerChange {
                traded: Some(vec![UpdateSet2(1200, 200)]),
                id: Some(13536143),
                ..Default::default()
            }]),
            ..Default::default()
        };
        init.update_cache(market_change, 2, true);
        assert_eq!(init.total_matched(), 200);
    }
}

#[test]
fn market_total_is_sum_of_runner_totals_after_trading() {
    let (market_id, _, mut init) = init();
    init.update_cache(
        MarketChange {
            market_id: Some(market_id.clone()),
            total_value: Some(999),
            runner_change: Some(vec![
                RunnerChange { id: Some(1), total_value: Some(500), ..Default::default() },
                RunnerChange { id: Some(2), total_value: Some(700), ..Default::default() },
            ]),
            ..Default::default()
        },
        1,
        true,
    );
    // new runners do not trigger the recount
    assert_eq!(init.total_matched(), 999);
    init.update_cache(
        MarketChange {
            market_id: Some(market_id),
            runner_change: Some(vec![RunnerChange {
                id: Some(1),
                traded: Some(vec![UpdateSet2(300, 100), UpdateSet2(400, 150)]),
                ..Default::default()
            }]),
            ..Default::default()
        },
        2,
        false,
    );
    assert_eq!(runner(&init, 1).total_matched(), Some(250));
    assert_eq!(init.total_matched(), 250 + 700);
    assert!(!init.active());
    assert_eq!(init.publish_time(), 2);
}

#[test]
fn runner_change_without_selection_id_is_ignored() {
    let (market_id, _, mut init) = init();
    init.update_cache(
        MarketChange {
            market_id: Some(market_id),
            runner_change: Some(vec![RunnerChange { total_value: Some(5), ..Default::default() }]),
            ..Default::default()
        },
        1,
        true,
    );
    assert!(init.runners().is_empty());
}

#[test]
fn market_closed_unless_definition_is_open() {
    let (_, _, mut init) = init();
    assert!(init.is_closed());
    init.update_market_definition(MarketDefinition {
        status: StreamMarketDefinitionStatus::Open,
        runners: vec![RunnerDefinition {
            id: Some(7),
            handicap: Some(-50),
            status: RunnerStatus::Active,
            sort_priority: 1,
            adjustment_factor: None,
            bsp: None,
            removal_date: None,
        }],
        ..Default::default()
    });
    assert!(!init.is_closed());
    let r = &init.runners()[0];
    assert_eq!(r.0, (7, Some(-50)));
    assert_eq!(r.1.definition().unwrap().sort_priority, 1);
    init.update_market_definition(MarketDefinition {
        status: StreamMarketDefinitionStatus::Closed,
        ..Default::default()
    });
    assert!(init.is_closed());
}
