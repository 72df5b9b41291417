use dummy_pin::DummyPin;
use dummy_pin::LastStateDummyPin;

#[test]
fn stateless_low_ignores_writes() {
    let mut pin = DummyPin::new_low();
    pin.set_high().unwrap();
    assert!(pin.is_low().unwrap());
    assert!(!pin.is_high().unwrap());
    pin.toggle().unwrap();
    pin.set_low().unwrap();
    pin.set_high().unwrap();
    assert!(pin.is_low().unwrap());
    assert!(!pin.is_high().unwrap());
}

#[test]
fn stateless_high_ignores_writes() {
    let mut pin = DummyPin::new_high();
    pin.set_low().unwrap();
    assert!(pin.is_high().unwrap());
    assert!(!pin.is_low().unwrap());
    pin.toggle().unwrap();
    pin.set_high().unwrap();
    pin.set_low().unwrap();
    assert!(pin.is_high().unwrap());
    assert!(!pin.is_low().unwrap());
}

#[test]
fn stateless_set_state_matches_input_reads() {
    let mut low = DummyPin::new_low();
    low.set_high().unwrap();
    assert_eq!(low.is_set_high().unwrap(), low.is_high().unwrap());
    assert_eq!(low.is_set_low().unwrap(), low.is_low().unwrap());

    let mut high = DummyPin::new_high();
    high.set_low().unwrap();
    assert_eq!(high.is_set_high().unwrap(), high.is_high().unwrap());
    assert_eq!(high.is_set_low().unwrap(), high.is_low().unwrap());
}

#[test]
fn stateful_last_write_decides() {
    let mut pin = LastStateDummyPin::new_low();
    pin.set_high().unwrap();
    pin.set_low().unwrap();
    pin.toggle().unwrap();
    pin.set_high().unwrap();
    assert!(pin.is_high().unwrap());
    assert!(!pin.is_low().unwrap());
    pin.set_low().unwrap();
    assert!(pin.is_low().unwrap());
    assert!(!pin.is_high().unwrap());
}

#[test]
fn stateful_set_high_twice_stays_high() {
    let mut pin = LastStateDummyPin::new_low();
    pin.set_high().unwrap();
    pin.set_high().unwrap();
    assert!(pin.is_high().unwrap());
    assert!(!pin.is_low().unwrap());
}

#[test]
fn stateful_toggle_twice_restores_level() {
    let mut pin = LastStateDummyPin::new_high();
    pin.toggle().unwrap();
    pin.toggle().unwrap();
    assert!(pin.is_high().unwrap());

    let mut pin = LastStateDummyPin::new_low();
    pin.toggle().unwrap();
    pin.toggle().unwrap();
    assert!(pin.is_low().unwrap());
}

#[test]
fn stateful_toggle_sequence() {
    let mut pin = LastStateDummyPin::new_low();
    pin.toggle().unwrap();
    assert!(pin.is_high().unwrap());
    pin.toggle().unwrap();
    assert!(pin.is_low().unwrap());
}

#[test]
fn stateful_new_matches_convenience_constructors() {
    let mut with_value = LastStateDummyPin::new(true);
    let mut high = LastStateDummyPin::new_high();
    assert_eq!(with_value.is_high().unwrap(), high.is_high().unwrap());
    assert_eq!(with_value.is_set_high().unwrap(), high.is_set_high().unwrap());

    let mut with_value = LastStateDummyPin::new(false);
    let mut low = LastStateDummyPin::new_low();
    assert_eq!(with_value.is_low().unwrap(), low.is_low().unwrap());
    assert_eq!(with_value.is_set_low().unwrap(), low.is_set_low().unwrap());
}

#[test]
fn stateful_set_state_reads_before_any_write() {
    let mut pin = LastStateDummyPin::new(true);
    assert!(pin.is_set_high().unwrap());
    assert!(!pin.is_set_low().unwrap());
}
