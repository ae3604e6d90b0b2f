use raspberry_web::errors::RpWebError;
use raspberry_web::hardware::{i32_to_u8, HardwareGate};

#[test]
pub fn below_u8_min_must_fail() {
    assert!(i32_to_u8(0 - 1).is_err())
}

#[test]
pub fn above_u8_max_must_fail() {
    assert!(i32_to_u8(255 + 1).is_err())
}

#[test]
pub fn within_range_must_succeed() {
    let xi32: i32 = 17;
    let resu8 = i32_to_u8(xi32).unwrap();
    assert_eq!(xi32 as u8, resu8);
}

#[test]
fn set_gpio_level_rpi_high_must_succeed() {
    let mut gate = HardwareGate::new();
    let res = gate.set_level(1, "high");

    assert!(res.is_ok());
}

#[test]
fn set_gpio_level_rpi_low_must_succeed() {
    let mut gate = HardwareGate::new();
    let res = gate.set_level(1, "low");

    assert!(res.is_ok());
}

#[test]
fn set_gpio_level_rpi_unknown_must_fail() {
    let mut gate = HardwareGate::new();
    let res = gate.set_level(1, "unknown_level");

    assert!(res.is_err());
}

#[test]
fn gate_counts_only_applied_writes() {
    let mut gate = HardwareGate::new();
    assert_eq!(gate.writes(), 0);
    gate.set_level(1, "high").unwrap();
    gate.set_level(2, "low").unwrap();
    assert_eq!(gate.writes(), 2);
    assert!(gate.set_level(1, "bogus").is_err());
    assert_eq!(gate.writes(), 2);
}

#[test]
fn gate_rejects_unaddressable_pin_with_range_error() {
    let mut gate = HardwareGate::new();
    match gate.set_level(300, "high") {
        Err(RpWebError::RangeError(_)) => (),
        other => panic!("expected a range error, got {:?}", other),
    }
    assert_eq!(gate.writes(), 0);
}

#[test]
fn gate_rejects_bad_token_with_internal_error() {
    let mut gate = HardwareGate::new();
    match gate.set_level(1, "purple") {
        Err(RpWebError::InternalError(_)) => (),
        other => panic!("expected an internal error, got {:?}", other),
    }
}
