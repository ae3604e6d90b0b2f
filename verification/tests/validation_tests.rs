use raspberry_web::errors::RpWebError;
use raspberry_web::settings::GpioConfig;
use raspberry_web::validation::{elements_in_both_vecs, validate_setup, vec_option_to_vec};

#[test]
fn validation_in_use_none_but_level_set_must_fail() {
    let gpioconfig = GpioConfig {
        gpios_in_use: None,
        gpios_mode_output: Some(vec![1]),
        gpios_mode_input: None,
        gpios_level_low: Some(vec![1]),
        gpios_level_high: None,
    };

    let res = validate_setup(&gpioconfig);
    assert!(res.is_err());
}

#[test]
fn validation_in_use_not_set_but_level_set_must_fail() {
    let gpioconfig = GpioConfig {
        gpios_in_use: Some(vec![2]),
        gpios_mode_output: Some(vec![2]),
        gpios_mode_input: None,
        gpios_level_low: Some(vec![1]),
        gpios_level_high: None,
    };

    let res = validate_setup(&gpioconfig);
    assert!(res.is_err());
}

#[test]
fn validation_mode_output_none_but_level_set_must_fail() {
    let gpioconfig = GpioConfig {
        gpios_in_use: Some(vec![1]),
        gpios_mode_output: None,
        gpios_mode_input: None,
        gpios_level_low: Some(vec![1]),
        gpios_level_high: None,
    };

    let res = validate_setup(&gpioconfig);
    assert!(res.is_err());
}

#[test]
fn validation_mode_output_not_set_but_level_set_must_fail() {
    let gpioconfig = GpioConfig {
        gpios_in_use: Some(vec![1]),
        gpios_mode_output: Some(vec![2]),
        gpios_mode_input: None,
        gpios_level_low: Some(vec![1]),
        gpios_level_high: None,
    };

    let res = validate_setup(&gpioconfig);
    assert!(res.is_err());
}

#[test]
fn validation_all_empty_sets_must_succeed() {
    let gpioconfig = GpioConfig {
        gpios_in_use: None,
        gpios_mode_output: None,
        gpios_mode_input: None,
        gpios_level_low: None,
        gpios_level_high: None,
    };
    assert!(validate_setup(&gpioconfig).is_ok());

    let gpioconfig = GpioConfig {
        gpios_in_use: Some(vec![]),
        gpios_mode_output: Some(vec![]),
        gpios_mode_input: Some(vec![]),
        gpios_level_low: Some(vec![]),
        gpios_level_high: Some(vec![]),
    };
    assert!(validate_setup(&gpioconfig).is_ok());
}

#[test]
fn validation_pin_with_both_levels_must_fail() {
    // The conflicting pin is in use and set to output, so the first two
    // checks pass and the level-conflict check reports the error.
    let gpioconfig = GpioConfig {
        gpios_in_use: Some(vec![1, 2]),
        gpios_mode_output: Some(vec![1, 2]),
        gpios_mode_input: None,
        gpios_level_low: Some(vec![1]),
        gpios_level_high: Some(vec![1]),
    };

    let res = validate_setup(&gpioconfig);
    match res {
        Err(RpWebError::ConfigError(m)) => assert_eq!(m, "pin assigned both levels"),
        other => panic!("expected a level-conflict config error, got {:?}", other),
    }
}

#[test]
fn validation_pin_with_both_modes_must_fail() {
    let gpioconfig = GpioConfig {
        gpios_in_use: Some(vec![1]),
        gpios_mode_output: Some(vec![1]),
        gpios_mode_input: Some(vec![1]),
        gpios_level_low: None,
        gpios_level_high: None,
    };

    let res = validate_setup(&gpioconfig);
    match res {
        Err(RpWebError::ConfigError(m)) => assert_eq!(m, "pin assigned both modes"),
        other => panic!("expected a mode-conflict config error, got {:?}", other),
    }
}

#[test]
fn validation_consistent_setup_must_succeed() {
    let gpioconfig = GpioConfig {
        gpios_in_use: Some(vec![1, 2, 3]),
        gpios_mode_output: Some(vec![1, 2, 3]),
        gpios_mode_input: None,
        gpios_level_low: Some(vec![1]),
        gpios_level_high: Some(vec![2, 3]),
    };
    assert!(validate_setup(&gpioconfig).is_ok());
}

#[test]
fn vec_option_to_vec_copies_or_defaults() {
    assert_eq!(vec_option_to_vec(&Some(vec![4, 5])), vec![4, 5]);
    assert_eq!(vec_option_to_vec(&None), Vec::<i32>::new());
}

#[test]
fn elements_in_both_vecs_finds_common_ids() {
    assert_eq!(elements_in_both_vecs(&vec![1, 2, 3], &vec![3, 1]), Some(vec![1, 3]));
    assert_eq!(elements_in_both_vecs(&vec![1, 2], &vec![3, 4]), None);
    assert_eq!(elements_in_both_vecs(&vec![], &vec![1]), None);
}
