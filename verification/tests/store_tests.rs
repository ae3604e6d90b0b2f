use raspberry_web::allowed::AllowedStatesTable;
use raspberry_web::errors::RpWebError;
use raspberry_web::store::StateStore;

const T0: i64 = 100;
const T1: i64 = 200;

#[test]
fn get_allowed_modes_must_succeed() {
    let table = AllowedStatesTable::default();

    let res = table.get_allowed_states("mode");
    assert!(res.is_ok());
    let map = res.expect("Test failed");

    let high = map.get(&"high").expect("Test failed");
    let low = map.get(&"low").expect("Test failed");
    let input = map.get(&"input").expect("Test failed");
    let output = map.get(&"output").expect("Test failed");

    assert_eq!(high, &false);
    assert_eq!(low, &false);
    assert_eq!(input, &true);
    assert_eq!(output, &true);
}

#[test]
fn get_allowed_levels_must_succeed() {
    let table = AllowedStatesTable::default();

    let res = table.get_allowed_states("level");
    assert!(res.is_ok());
    let map = res.expect("Test failed");

    let high = map.get(&"high").expect("Test failed");
    let low = map.get(&"low").expect("Test failed");
    let input = map.get(&"input").expect("Test failed");
    let output = map.get(&"output").expect("Test failed");

    assert_eq!(high, &true);
    assert_eq!(low, &true);
    assert_eq!(input, &false);
    assert_eq!(output, &false);
}

#[test]
fn get_allowed_unknown_type_must_fail() {
    let table = AllowedStatesTable::default();
    match table.get_allowed_states("voltage") {
        Err(RpWebError::NotFound(_)) => (),
        other => panic!("expected not found, got {:?}", other.map(|_| ())),
    }
}

#[test]
fn reset_table_gpio_state_after_update_must_succeed() {
    let mut store = StateStore::new();

    // Change
    store.set_in_use(1, 1, T0).expect("Test failed");
    store.set_mode(1, "output", T0).expect("Test failed");
    store.set_level(1, "low", T0).expect("Test failed");

    // Reset
    store.reset_all(T1).expect("Test failed");

    // Check
    let gpio_reset = store.get(1).expect("Test failed");

    assert_eq!(gpio_reset.in_use, 0);
    assert_eq!(gpio_reset.gpio_mode, Some("".to_string()));
    assert_eq!(gpio_reset.gpio_level, Some("".to_string()));
}

#[test]
fn set_existing_gpio_in_use_db_must_succeed() {
    let mut store = StateStore::new();

    let res = store.set_in_use(1, 1, T0);
    assert!(res.is_ok());

    let gpio_changed = store.get(1).expect("Test failed");
    assert_eq!(gpio_changed.in_use, 1);
}

#[test]
fn set_nonexisting_gpio_in_use_db_must_fail() {
    let mut store = StateStore::new();

    let res = store.set_in_use(42, 1, T0);
    assert!(res.is_err());
}

#[test]
fn set_mode_existing_gpio_db_must_succeed() {
    let mut store = StateStore::new();
    let mode_change = "input".to_string();

    let res = store.set_mode(1, &mode_change, T0);
    assert!(res.is_ok());

    let gpio_changed = store.get(1).expect("Test failed");
    assert_eq!(gpio_changed.gpio_mode, Some(mode_change));
}

#[test]
fn set_mode_nonexisting_gpio_db_must_fail() {
    let mut store = StateStore::new();

    let res = store.set_mode(42, "input", T0);
    assert!(res.is_err());
}

#[test]
fn set_level_existing_gpio_db_must_succeed() {
    let mut store = StateStore::new();
    let level_change = "input".to_string();

    let res = store.set_mode(1, &level_change, T0);
    assert!(res.is_ok());

    let gpio_changed = store.get(1).expect("Test failed");
    assert_eq!(gpio_changed.gpio_mode, Some(level_change));
}

#[test]
fn set_level_nonexisting_gpio_db_must_fail() {
    let mut store = StateStore::new();

    let res = store.set_mode(42, "high", T0);
    assert!(res.is_err());
}

/// The record fields a test compares between two store states.
fn snapshot(store: &StateStore, id: i32) -> (i32, i32, Option<String>, Option<String>, Option<i64>) {
    let g = store.get(id).expect("known pin");
    (g.gpio_id, g.in_use, g.gpio_mode, g.gpio_level, g.last_change)
}

#[test]
fn reset_all_is_idempotent() {
    let known: [i32; 28] = [
        0, 1, 2, 3, 4, 5, 6, 7, 8, 9, 10, 11, 12, 13, 14, 15, 16, 21, 22, 23, 24, 25, 26, 27,
        28, 29, 30, 31,
    ];

    let mut once = StateStore::new();
    once.set_in_use(1, 1, T0).unwrap();
    once.set_level(1, "high", T0).unwrap();
    once.reset_all(T1).unwrap();

    let mut twice = StateStore::new();
    twice.set_in_use(1, 1, T0).unwrap();
    twice.set_level(1, "high", T0).unwrap();
    twice.reset_all(T1).unwrap();
    twice.reset_all(T1).unwrap();

    for id in known.iter() {
        assert_eq!(snapshot(&once, *id), snapshot(&twice, *id));
    }
}

#[test]
fn get_unknown_ids_must_fail_not_found() {
    let store = StateStore::new();
    for id in [-1, 17, 18, 19, 20, 32, 42, 255].iter() {
        match store.get(*id) {
            Err(RpWebError::NotFound(_)) => (),
            other => panic!("expected not found for {}, got {:?}", id, other),
        }
    }
}

#[test]
fn set_level_then_get_round_trips() {
    let mut store = StateStore::new();
    store.set_level(5, "high", T0).unwrap();
    let before = store.get(5).unwrap();
    assert_eq!(before.gpio_level, Some("high".to_string()));
    assert_eq!(before.last_change, Some(T0));

    store.set_level(5, "low", T1).unwrap();
    let after = store.get(5).unwrap();
    assert_eq!(after.gpio_level, Some("low".to_string()));
    assert!(after.last_change >= before.last_change);
}
