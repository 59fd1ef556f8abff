use std::cell::Cell;
use std::cell::RefCell;
use std::rc::Rc;

use gpio::dummy::{edge_reports, DummyEdgeIter, DummyGpioIn, DummyGpioOut};
use gpio::{GpioEdge, GpioIn, GpioOut, GpioValue};

/// A sampling callback reading a shared line level; every call of this
/// helper yields a closure of one and the same type, so differently
/// wired pins can share one edge iterator.
fn reader(line: Rc<Cell<GpioValue>>) -> impl Fn() -> GpioValue {
    move || line.get()
}

#[test]
fn constant_input_reads_its_value() {
    let dg = DummyGpioIn::new(|| GpioValue::High);
    assert_eq!(dg.read_value(), Ok(GpioValue::High));
    assert_eq!(dg.read_value(), Ok(GpioValue::High));
}

#[test]
fn set_edge_succeeds() {
    let mut dev = DummyGpioIn::new(|| GpioValue::Low);
    assert_eq!(dev.set_edge(GpioEdge::Falling), Ok(()));
    assert_eq!(dev.set_edge(GpioEdge::NoInterrupt), Ok(()));
}

#[test]
fn output_passes_values_to_its_callback() {
    let log = Rc::new(RefCell::new(Vec::new()));
    let sink = log.clone();
    let mut out = DummyGpioOut::new(move |v| sink.borrow_mut().push(v));
    out.set_high().unwrap();
    out.set_low().unwrap();
    out.set_value(GpioValue::High).unwrap();
    out.set_value(GpioValue::Low).unwrap();
    // The value may also be anything convertible to a level.
    out.set_value(true).unwrap();
    out.set_value(0u8).unwrap();
    assert_eq!(
        *log.borrow(),
        vec![
            GpioValue::High,
            GpioValue::Low,
            GpioValue::High,
            GpioValue::Low,
            GpioValue::High,
            GpioValue::Low,
        ]
    );
}

#[test]
fn loopback_round_trip_is_idempotent() {
    // A loopback double: the output writes the level that the input reads.
    let wire = Rc::new(Cell::new(GpioValue::Low));
    let sink = wire.clone();
    let mut out = DummyGpioOut::new(move |v| sink.set(v));
    let input = DummyGpioIn::new(reader(wire.clone()));

    out.set_value(GpioValue::High).unwrap();
    assert_eq!(input.read_value(), Ok(GpioValue::High));
    // Setting the same value again changes nothing.
    out.set_value(GpioValue::High).unwrap();
    assert_eq!(input.read_value(), Ok(GpioValue::High));
    // Reading twice has no hidden state change either.
    assert_eq!(input.read_value(), Ok(GpioValue::High));

    out.set_value(GpioValue::Low).unwrap();
    assert_eq!(input.read_value(), Ok(GpioValue::Low));
    out.set_value(GpioValue::Low).unwrap();
    assert_eq!(input.read_value(), Ok(GpioValue::Low));
}

#[test]
fn edge_reports_per_policy() {
    assert!(edge_reports(GpioEdge::Both, GpioValue::High));
    assert!(edge_reports(GpioEdge::Both, GpioValue::Low));
    assert!(edge_reports(GpioEdge::Rising, GpioValue::High));
    assert!(!edge_reports(GpioEdge::Rising, GpioValue::Low));
    assert!(edge_reports(GpioEdge::Falling, GpioValue::Low));
    assert!(!edge_reports(GpioEdge::Falling, GpioValue::High));
    assert!(!edge_reports(GpioEdge::NoInterrupt, GpioValue::High));
    assert!(!edge_reports(GpioEdge::NoInterrupt, GpioValue::Low));
}

/// Drives the line through `values` and counts how many pulls yield a
/// ready pin rather than a timeout.
fn count_ready_events(policy: GpioEdge, initial: GpioValue, values: &[GpioValue]) -> usize {
    let line = Rc::new(Cell::new(initial));
    let mut dev = DummyGpioIn::new(reader(line.clone()));
    dev.set_edge(policy).unwrap();
    let mut iter = DummyEdgeIter::new().unwrap();
    iter.timeout_ms(30);
    iter.add(&dev).unwrap();
    let mut ready = 0;
    for &value in values {
        line.set(value);
        match iter.next().unwrap() {
            Ok(_) => ready += 1,
            Err(()) => {}
        }
    }
    ready
}

#[test]
fn rising_policy_reports_only_low_to_high() {
    let values = [
        GpioValue::Low,
        GpioValue::Low,
        GpioValue::High,
        GpioValue::Low,
        GpioValue::High,
    ];
    assert_eq!(count_ready_events(GpioEdge::Rising, GpioValue::High, &values), 2);
}

#[test]
fn both_policy_reports_every_transition() {
    let values = [
        GpioValue::Low,
        GpioValue::Low,
        GpioValue::High,
        GpioValue::Low,
        GpioValue::High,
    ];
    assert_eq!(count_ready_events(GpioEdge::Both, GpioValue::High, &values), 4);
}

#[test]
fn no_interrupt_policy_reports_nothing() {
    let values = [
        GpioValue::Low,
        GpioValue::Low,
        GpioValue::High,
        GpioValue::Low,
        GpioValue::High,
    ];
    assert_eq!(count_ready_events(GpioEdge::NoInterrupt, GpioValue::High, &values), 0);
}

#[test]
fn falling_policy_reports_only_high_to_low() {
    let values = [
        GpioValue::High,
        GpioValue::Low,
        GpioValue::High,
        GpioValue::Low,
    ];
    assert_eq!(count_ready_events(GpioEdge::Falling, GpioValue::Low, &values), 2);
}

#[test]
fn bounded_wait_times_out_and_stays_pullable() {
    let line = Rc::new(Cell::new(GpioValue::Low));
    let mut dev = DummyGpioIn::new(reader(line.clone()));
    dev.set_edge(GpioEdge::Both).unwrap();
    let mut iter = DummyEdgeIter::new().unwrap();
    iter.timeout_ms(40);
    iter.add(&dev).unwrap();

    // No value change: the pull returns a timeout within the bound, not
    // indefinitely.
    let start = std::time::Instant::now();
    assert!(matches!(iter.next(), Some(Err(()))));
    assert!(start.elapsed() < std::time::Duration::from_secs(5));

    // The sequence is not exhausted: once a change occurs, the next pull
    // succeeds.
    line.set(GpioValue::High);
    assert!(matches!(iter.next(), Some(Ok(_))));
}

#[test]
fn only_the_changed_pin_is_yielded() {
    let line_a = Rc::new(Cell::new(GpioValue::Low));
    let line_b = Rc::new(Cell::new(GpioValue::Low));
    let line_c = Rc::new(Cell::new(GpioValue::Low));
    let mut a = DummyGpioIn::new(reader(line_a.clone()));
    let mut b = DummyGpioIn::new(reader(line_b.clone()));
    let mut c = DummyGpioIn::new(reader(line_c.clone()));
    a.set_edge(GpioEdge::Both).unwrap();
    b.set_edge(GpioEdge::Both).unwrap();
    c.set_edge(GpioEdge::Both).unwrap();
    let mut iter = DummyEdgeIter::new().unwrap();
    iter.timeout_ms(200);
    iter.add(&a).unwrap();
    iter.add(&b).unwrap();
    iter.add(&c).unwrap();

    // Only B's line changes; the yielded pin must read B's new level
    // while the others still show Low.
    line_b.set(GpioValue::High);
    let ready = iter.next().unwrap().unwrap();
    assert_eq!(ready.read_value(), Ok(GpioValue::High));
    assert_eq!(a.read_value(), Ok(GpioValue::Low));
    assert_eq!(c.read_value(), Ok(GpioValue::Low));
}
