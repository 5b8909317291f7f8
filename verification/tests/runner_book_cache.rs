use betfair_stream_api::ladder::{UpdateSet2, UpdateSet3};
use betfair_stream_api::messages::{RunnerChange, RunnerDefinition, RunnerStatus};
use betfair_stream_api::runner_book::{CacheError, RunnerBookCache};

#[test]
fn runner_book_cache_test_update_traded() {}

#[test]
fn runner_from_change_needs_selection_id() {
    let r = RunnerBookCache::new_from_runner_change(RunnerChange::default());
    assert_eq!(r.err(), Some(CacheError::InvalidSelectionId));
}

#[test]
fn runner_from_definition_needs_selection_id() {
    let d = RunnerDefinition { id: None, handicap: None, status: RunnerStatus::Active, sort_priority: 0, adjustment_factor: None, bsp: None, removal_date: None };
    assert_eq!(RunnerBookCache::new_from_runner_definition(d).err(), Some(CacheError::InvalidSelectionId));
}

#[test]
fn runner_from_change_builds_sorted_ladders() {
    let r = RunnerBookCache::new_from_runner_change(RunnerChange {
        id: Some(42),
        handicap: Some(25),
        last_traded_price: Some(350),
        available_to_back: Some(vec![UpdateSet2(300, 10), UpdateSet2(250, 5), UpdateSet2(280, 0)]),
        best_available_to_lay: Some(vec![UpdateSet3(1, 360, 4), UpdateSet3(0, 355, 2)]),
        ..Default::default()
    })
    .unwrap();
    assert_eq!(*r.selection_id(), 42);
    assert_eq!(r.handicap(), Some(25));
    assert_eq!(r.last_price_traded(), Some(&350));
    assert_eq!(r.available_to_back().book, vec![(250, 5), (300, 10)]);
    assert_eq!(r.best_available_to_lay().book, vec![(0, (355, 2)), (1, (360, 4))]);
    assert!(r.traded().book.is_empty());
    assert_eq!(r.total_matched(), None);
    assert_eq!(r.definition(), None);
}

#[test]
fn update_traded_sets_total_from_update_volume() {
    let mut r = RunnerBookCache::new_from_runner_change(RunnerChange {
        id: Some(1),
        traded: Some(vec![UpdateSet2(200, 50)]),
        ..Default::default()
    })
    .unwrap();
    r.update_traded(&[UpdateSet2(200, 70), UpdateSet2(210, 30)]);
    assert_eq!(r.total_matched(), Some(100));
    assert_eq!(r.traded().book, vec![(200, 70), (210, 30)]);
    r.update_traded(&[]);
    assert_eq!(r.total_matched(), Some(0));
    assert!(r.traded().book.is_empty());
}

#[test]
fn update_traded_volume_saturates() {
    let mut r = RunnerBookCache::new_from_runner_change(RunnerChange { id: Some(1), ..Default::default() }).unwrap();
    r.update_traded(&[UpdateSet2(200, u64::MAX), UpdateSet2(210, 30)]);
    assert_eq!(r.total_matched(), Some(u64::MAX));
}

#[test]
fn setters_replace_single_values() {
    let mut r = RunnerBookCache::new_from_runner_definition(RunnerDefinition {
        id: Some(5),
        handicap: None,
        status: RunnerStatus::Active,
        sort_priority: 3,
        adjustment_factor: Some(1250),
        bsp: None,
        removal_date: None,
    })
    .unwrap();
    assert_eq!(r.definition().unwrap().sort_priority, 3);
    r.set_last_price_traded(410);
    r.set_total_matched(77);
    r.set_starting_price_near(400);
    r.set_starting_price_far(420);
    assert_eq!(r.last_price_traded(), Some(&410));
    assert_eq!(r.total_matched(), Some(77));
    assert_eq!(r.starting_price_near(), Some(&400));
    assert_eq!(r.starting_price_far(), Some(&420));
    r.set_definition(RunnerDefinition { id: Some(5), handicap: None, status: RunnerStatus::Winner, sort_priority: 3, adjustment_factor: Some(1250), bsp: Some(420), removal_date: None });
    assert_eq!(r.definition().unwrap().status, RunnerStatus::Winner);
    assert_eq!(r.definition().unwrap().bsp, Some(420));
}
