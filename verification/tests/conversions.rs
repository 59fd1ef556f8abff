use gpio::GpioValue;

#[test]
fn value_from_bool() {
    assert_eq!(GpioValue::from(false), GpioValue::Low);
    assert_eq!(GpioValue::from(true), GpioValue::High);
}

#[test]
fn value_from_u8() {
    assert_eq!(GpioValue::from(0u8), GpioValue::Low);
    assert_eq!(GpioValue::from(1u8), GpioValue::High);
    assert_eq!(GpioValue::from(7u8), GpioValue::High);
    assert_eq!(GpioValue::from(255u8), GpioValue::High);
}

#[test]
fn bool_from_value() {
    assert_eq!(bool::from(GpioValue::Low), false);
    assert_eq!(bool::from(GpioValue::High), true);
}

#[test]
fn u8_from_value() {
    assert_eq!(u8::from(GpioValue::Low), 0u8);
    assert_eq!(u8::from(GpioValue::High), 1u8);
}

#[test]
fn bool_round_trip() {
    for value in [GpioValue::Low, GpioValue::High] {
        assert_eq!(GpioValue::from(bool::from(value)), value);
    }
}

#[test]
fn u8_round_trip() {
    for value in [GpioValue::Low, GpioValue::High] {
        assert_eq!(GpioValue::from(u8::from(value)), value);
    }
}
