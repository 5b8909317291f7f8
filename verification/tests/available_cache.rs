use betfair_stream_api::available::Available;
use betfair_stream_api::ladder::{UpdateSet2, UpdateSet3};

// Prices and sizes are in hundredths: 1.02 is 102, 34.45 is 3445.

fn setup_set3() -> Available<UpdateSet3> {
    let prices = &[UpdateSet3(1, 102, 3445), UpdateSet3(0, 101, 1200)];
    Available::new(prices)
}

#[test]
fn available_cache_test_init() {
    let init = setup_set3();
    let expected = vec![(0, (101, 1200)), (1, (102, 3445))];
    assert_eq!(init.book, expected);
}

#[test]
fn available_cache_test_init_2() {
    let prices = &[UpdateSet2(2700, 95), UpdateSet2(1300, 2801), UpdateSet2(102, 115721)];
    let init = Available::new(prices);
    let expected = vec![(102, 115721), (1300, 2801), (2700, 95)];
    assert_eq!(init.book, expected);
}

#[test]
fn available_cache_test_clear() {
    let mut init = setup_set3();
    init.clear();
    assert_eq!(init.book, Vec::new());
}

#[test]
fn available_cache_test_update_set_2() {
    let init = Available::new(&[
        UpdateSet2(2700, 95),
        UpdateSet2(1300, 2801),
        UpdateSet2(102, 115721),
    ]);
    let update = &[UpdateSet2(2700, 200)];
    let expected = vec![(102, 115721), (1300, 2801), (2700, 200)];
    let mut actual = init;
    actual.update(update);
    assert_eq!(actual.book, expected);
}

#[test]
fn available_cache_test_update_set_3() {
    let init = Available::new(&[UpdateSet3(1, 102, 3445), UpdateSet3(0, 101, 1200)]);
    let update = &[UpdateSet3(1, 102, 2200)];
    let expected = vec![(0, (101, 1200)), (1, (102, 2200))];
    let mut actual = init;
    actual.update(update);
    assert_eq!(actual.book, expected);
}

#[test]
fn available_cache_test_update_set_2_delete() {
    let init = Available::new(&[UpdateSet2(2700, 95), UpdateSet2(1300, 2801)]);
    let update = &[UpdateSet2(2700, 0)];
    let expected = vec![(1300, 2801)];
    let mut actual = init;
    actual.update(update);
    assert_eq!(actual.book, expected);
}

#[test]
fn available_cache_test_update_set_3_delete() {
    let init = Available::new(&[UpdateSet3(1, 102, 3445), UpdateSet3(0, 101, 1200)]);
    let update = &[UpdateSet3(1, 102, 0)];
    let expected = vec![(0, (101, 1200))];
    let mut actual = init;
    actual.update(update);
    assert_eq!(actual.book, expected);
}

#[test]
fn image_leaves_out_removals_and_sorts() {
    let init = Available::new(&[UpdateSet2(500, 10), UpdateSet2(300, 0), UpdateSet2(200, 7)]);
    assert_eq!(init.book, vec![(200, 7), (500, 10)]);
}

#[test]
fn image_keeps_equal_keys_in_arrival_order() {
    let init = Available::new(&[UpdateSet2(500, 1), UpdateSet2(200, 7), UpdateSet2(500, 2)]);
    assert_eq!(init.book, vec![(200, 7), (500, 1), (500, 2)]);
}

#[test]
fn update_inserts_new_keys_in_order() {
    let mut a = Available::new(&[UpdateSet2(200, 7), UpdateSet2(500, 10)]);
    a.update(&[UpdateSet2(300, 4), UpdateSet2(100, 1), UpdateSet2(900, 2)]);
    assert_eq!(a.book, vec![(100, 1), (200, 7), (300, 4), (500, 10), (900, 2)]);
}

#[test]
fn update_removal_of_absent_key_changes_nothing() {
    let mut a = Available::new(&[UpdateSet2(200, 7)]);
    a.update(&[UpdateSet2(300, 0)]);
    assert_eq!(a.book, vec![(200, 7)]);
}

#[test]
fn update_applies_entries_in_order() {
    let mut a = Available::<UpdateSet2>::new(&[]);
    a.update(&[UpdateSet2(300, 4), UpdateSet2(300, 0), UpdateSet2(300, 9)]);
    assert_eq!(a.book, vec![(300, 9)]);
}

#[test]
fn image_equals_updates_of_empty_ladder_when_keys_differ() {
    let prices = [UpdateSet2(700, 3), UpdateSet2(100, 5), UpdateSet2(400, 0), UpdateSet2(200, 8)];
    let image = Available::new(&prices);
    let mut updated = Available::<UpdateSet2>::new(&[]);
    updated.update(&prices);
    assert_eq!(image.book, updated.book);
}

#[test]
fn update_of_one_key_as_map() {
    let mut a = Available::new(&[UpdateSet2(100, 1), UpdateSet2(200, 2), UpdateSet2(300, 3)]);
    a.update(&[UpdateSet2(200, 0)]);
    assert_eq!(a.book, vec![(100, 1), (300, 3)]);
    a.update(&[UpdateSet2(100, 9)]);
    assert_eq!(a.book, vec![(100, 9), (300, 3)]);
}

#[test]
fn available_image_equals_updates_on_empty() {
    let prices = [UpdateSet2(2700, 95), UpdateSet2(1300, 0), UpdateSet2(102, 115721)];
    let image = Available::new(&prices);
    let mut updated = Available::new(&[]);
    updated.update(&prices);
    assert_eq!(image.book, updated.book);
    assert_eq!(image.book, vec![(102, 115721), (2700, 95)]);
}

#[test]
fn available_batch_update_acts_key_by_key() {
    let mut a = Available::new(&[UpdateSet2(100, 1)]);
    a.update(&[UpdateSet2(200, 5), UpdateSet2(200, 0), UpdateSet2(300, 7), UpdateSet2(200, 9), UpdateSet2(100, 0)]);
    assert_eq!(a.book, vec![(200, 9), (300, 7)]);
}

#[test]
fn available_update_twice_is_like_once() {
    let mut a = Available::new(&[UpdateSet2(100, 1), UpdateSet2(300, 3)]);
    let batch = [UpdateSet2(200, 5), UpdateSet2(100, 0), UpdateSet2(200, 6), UpdateSet2(400, 4)];
    a.update(&batch);
    let once = a.book.clone();
    a.update(&batch);
    assert_eq!(a.book, once);
    assert_eq!(once, vec![(200, 6), (300, 3), (400, 4)]);
}

#[test]
fn available_image_keeps_every_live_entry() {
    let a = Available::new(&[UpdateSet2(300, 1), UpdateSet2(100, 2), UpdateSet2(300, 7), UpdateSet2(200, 0)]);
    assert_eq!(a.book, vec![(100, 2), (300, 1), (300, 7)]);
}
