use raspberry_web::errors::RpWebError;
use raspberry_web::hardware::HardwareGate;
use raspberry_web::pipeline::RequestPipeline;
use raspberry_web::settings::GpioConfig;
use raspberry_web::setup::apply_startup_config;
use raspberry_web::store::StateStore;

const T0: i64 = 100;

/// A pipeline seeded like the test database: pin 1 can be polled and
/// updated, pin 2 is not in use, pin 3 is in use with input mode.
fn pipeline_for_tests() -> RequestPipeline {
    let mut p = RequestPipeline::new();
    p.store.set_in_use(1, 1, T0).unwrap();
    p.store.set_mode(1, "output", T0).unwrap();
    p.store.set_level(1, "low", T0).unwrap();
    p.store.set_in_use(2, 0, T0).unwrap();
    p.store.set_in_use(3, 1, T0).unwrap();
    p.store.set_mode(3, "input", T0).unwrap();
    p
}

#[test]
fn actix_tests_check_status_succes() {
    let p = pipeline_for_tests();
    assert!(p.get_status(1).is_ok());
}

#[test]
fn actix_tests_check_status_gpio_nonexistant_failure() {
    let p = pipeline_for_tests();
    assert_eq!(p.get_status(18).is_ok(), false);
}

#[test]
fn actix_tests_set_gpio_level_success() {
    let mut p = pipeline_for_tests();
    assert!(p.set_level(1, "high").is_ok());
}

#[test]
fn actix_tests_set_gpio_level_gpio_nonexistant_failure() {
    let mut p = pipeline_for_tests();
    assert_eq!(p.set_level(18, "high").is_ok(), false);
}

#[test]
fn actix_tests_set_gpio_level_gpio_not_in_use_failure() {
    let mut p = pipeline_for_tests();
    assert_eq!(p.set_level(2, "high").is_ok(), false);
}

#[test]
fn actix_tests_set_gpio_level_gpio_mode_not_output_failure() {
    let mut p = pipeline_for_tests();
    assert_eq!(p.set_level(3, "high").is_ok(), false);
}

#[test]
fn actix_tests_set_gpio_level_unknown_level_failure() {
    let mut p = pipeline_for_tests();
    assert_eq!(p.set_level(1, "something_random").is_ok(), false);
}

#[test]
fn integration_tests_check_status_succes() {
    let p = pipeline_for_tests();
    assert!(p.get_status(1).is_ok());
}

#[test]
fn integration_tests_check_status_gpio_nonexistant_failure() {
    let p = pipeline_for_tests();
    assert_eq!(p.get_status(18).is_ok(), false);
}

#[test]
fn integration_tests_set_gpio_level_success() {
    let mut p = pipeline_for_tests();
    assert!(p.set_level(1, "high").is_ok());
}

#[test]
fn integration_tests_set_gpio_level_gpio_nonexistant_failure() {
    let mut p = pipeline_for_tests();
    assert_eq!(p.set_level(18, "high").is_ok(), false);
}

#[test]
fn integration_tests_set_gpio_level_gpio_not_in_use_failure() {
    let mut p = pipeline_for_tests();
    assert_eq!(p.set_level(2, "high").is_ok(), false);
}

#[test]
fn integration_tests_set_gpio_level_gpio_mode_not_output_failure() {
    let mut p = pipeline_for_tests();
    assert_eq!(p.set_level(3, "high").is_ok(), false);
}

#[test]
fn integration_tests_set_gpio_level_unknown_level_failure() {
    let mut p = pipeline_for_tests();
    assert_eq!(p.set_level(1, "something_random").is_ok(), false);
}

#[test]
fn scenario_a_output_pin_accepts_high() {
    // Pin 1 = {in_use=1, mode=output, level=low}: setting "high"
    // succeeds and the returned state carries level "high".
    let mut p = pipeline_for_tests();
    let g = p.set_level(1, "high").expect("change must be accepted");
    assert_eq!(g.gpio_id, 1);
    assert_eq!(g.gpio_level, Some("high".to_string()));
    assert_eq!(p.gate.writes(), 1);
}

#[test]
fn scenario_b_unused_pin_is_forbidden() {
    // Pin 2 = {in_use=0}: any level change is forbidden, whatever the
    // requested token.
    let mut p = pipeline_for_tests();
    for token in ["high", "low", "HIGH", "purple", "output", ""].iter() {
        match p.set_level(2, token) {
            Err(RpWebError::Forbidden(_)) => (),
            other => panic!("expected forbidden for {:?}, got {:?}", token, other),
        }
    }
    assert_eq!(p.gate.writes(), 0);
}

#[test]
fn scenario_c_input_pin_is_forbidden() {
    // Pin 3 = {in_use=1, mode=input}: level changes are forbidden.
    let mut p = pipeline_for_tests();
    match p.set_level(3, "high") {
        Err(RpWebError::Forbidden(_)) => (),
        other => panic!("expected forbidden, got {:?}", other),
    }
}

#[test]
fn scenario_d_unconfigured_pin_is_not_found() {
    // Pin 18 was never configured: both reads and writes report it as
    // not found.
    let mut p = pipeline_for_tests();
    match p.get_status(18) {
        Err(RpWebError::NotFound(_)) => (),
        other => panic!("expected not found, got {:?}", other),
    }
    match p.set_level(18, "high") {
        Err(RpWebError::NotFound(_)) => (),
        other => panic!("expected not found, got {:?}", other),
    }
}

#[test]
fn unknown_token_on_output_pin_is_not_found() {
    let mut p = pipeline_for_tests();
    match p.set_level(1, "purple") {
        Err(RpWebError::NotFound(_)) => (),
        other => panic!("expected not found, got {:?}", other),
    }
    assert_eq!(p.gate.writes(), 0);
}

#[test]
fn recognized_but_disallowed_token_is_forbidden() {
    // Under the default policy "output" is a recognized token that the
    // level row disallows.
    let mut p = pipeline_for_tests();
    match p.set_level(1, "output") {
        Err(RpWebError::Forbidden(_)) => (),
        other => panic!("expected forbidden, got {:?}", other),
    }
}

#[test]
fn level_tokens_fold_to_lowercase() {
    let mut p = pipeline_for_tests();
    let g = p.set_level(1, "HIGH").expect("case-insensitive token must be accepted");
    assert_eq!(g.gpio_level, Some("high".to_string()));
}

#[test]
fn set_level_round_trip_updates_level_and_timestamp() {
    let mut p = pipeline_for_tests();
    let before = p.get_status(1).unwrap();

    let returned = p.set_level_at(1, "high", T0 + 50).expect("change must be accepted");
    assert_eq!(returned.gpio_level, Some("high".to_string()));
    assert_eq!(returned.last_change, Some(T0 + 50));

    let after = p.get_status(1).unwrap();
    assert_eq!(after.gpio_level, Some("high".to_string()));
    assert!(after.last_change >= before.last_change);
}

#[test]
fn set_level_with_wall_clock_stamps_a_timestamp() {
    let mut p = pipeline_for_tests();
    let g = p.set_level(1, "low").expect("change must be accepted");
    match g.last_change {
        Some(t) => assert!(t >= 0),
        None => panic!("a committed change must carry a timestamp"),
    }
}

#[test]
fn apply_startup_config_assigns_roles_and_levels() {
    let mut store = StateStore::new();
    let mut gate = HardwareGate::new();
    let cfg = GpioConfig {
        gpios_in_use: Some(vec![1, 3]),
        gpios_mode_output: Some(vec![1]),
        gpios_mode_input: Some(vec![3]),
        gpios_level_low: Some(vec![1]),
        gpios_level_high: None,
    };
    apply_startup_config(&mut store, &mut gate, &cfg, T0).expect("config must apply");

    let one = store.get(1).unwrap();
    assert_eq!(one.in_use, 1);
    assert_eq!(one.gpio_mode, Some("output".to_string()));
    assert_eq!(one.gpio_level, Some("low".to_string()));
    assert_eq!(one.last_change, Some(T0));

    let three = store.get(3).unwrap();
    assert_eq!(three.in_use, 1);
    assert_eq!(three.gpio_mode, Some("input".to_string()));
    assert_eq!(three.gpio_level, None);

    let untouched = store.get(2).unwrap();
    assert_eq!(untouched.in_use, 0);
    assert_eq!(untouched.last_change, None);

    assert_eq!(gate.writes(), 1);
}

#[test]
fn apply_startup_config_unknown_pin_must_fail() {
    let mut store = StateStore::new();
    let mut gate = HardwareGate::new();
    let cfg = GpioConfig {
        gpios_in_use: Some(vec![42]),
        gpios_mode_output: None,
        gpios_mode_input: None,
        gpios_level_low: None,
        gpios_level_high: None,
    };
    match apply_startup_config(&mut store, &mut gate, &cfg, T0) {
        Err(RpWebError::InternalError(_)) => (),
        other => panic!("expected an internal error, got {:?}", other),
    }
}

#[test]
fn apply_startup_config_unaddressable_pin_must_fail() {
    let mut store = StateStore::new();
    let mut gate = HardwareGate::new();
    let cfg = GpioConfig {
        gpios_in_use: None,
        gpios_mode_output: None,
        gpios_mode_input: None,
        gpios_level_low: Some(vec![300]),
        gpios_level_high: None,
    };
    match apply_startup_config(&mut store, &mut gate, &cfg, T0) {
        Err(RpWebError::RangeError(_)) => (),
        other => panic!("expected a range error, got {:?}", other),
    }
}

#[test]
fn check_set_level_reports_state_without_side_effect() {
    let p = pipeline_for_tests();
    let g = p.check_set_level(1, "high").expect("check must pass");
    assert_eq!(g.gpio_level, Some("low".to_string()));
    assert_eq!(p.gate.writes(), 0);
}

#[test]
fn commit_level_persists_and_returns_the_record() {
    let mut p = pipeline_for_tests();
    let g = p.commit_level(1, "high").expect("known pin must commit");
    assert_eq!(g.gpio_level, Some("high".to_string()));

    match p.commit_level(42, "high") {
        Err(RpWebError::InternalError(_)) => (),
        other => panic!("expected an internal error, got {:?}", other),
    }
}

#[test]
fn error_message_is_returned_by_message() {
    let p = RequestPipeline::new();
    let err = p.get_status(42).unwrap_err();
    assert_eq!(err.message().as_str(), "GPIO is not configured in the state store");
}
