use gpio::sysfs::{GpioDirection, PinLifecycle, PinRequest};
use gpio::GpioEdge;

#[test]
fn open_exports_once_when_not_yet_exported() {
    let (_pin, requests) = PinLifecycle::open(23, GpioDirection::Output, false);
    assert_eq!(
        requests,
        vec![
            PinRequest::WriteExport(23),
            PinRequest::WriteActiveLow(23),
            PinRequest::WriteDirection(23, GpioDirection::Output),
            PinRequest::OpenValueChannel(23, GpioDirection::Output),
        ]
    );
}

#[test]
fn open_skips_export_when_already_exported() {
    let (_pin, requests) = PinLifecycle::open(23, GpioDirection::Input, true);
    assert_eq!(
        requests,
        vec![
            PinRequest::WriteActiveLow(23),
            PinRequest::WriteDirection(23, GpioDirection::Input),
            PinRequest::OpenValueChannel(23, GpioDirection::Input),
        ]
    );
}

#[test]
fn open_then_teardown_exports_and_unexports_exactly_once() {
    let (mut pin, requests) = PinLifecycle::open(23, GpioDirection::Output, false);
    let teardown = pin.teardown();
    let mut all = requests;
    all.push(teardown);
    let exports = all
        .iter()
        .filter(|r| matches!(r, PinRequest::WriteExport(_)))
        .count();
    let unexports = all
        .iter()
        .filter(|r| matches!(r, PinRequest::WriteUnexport(_)))
        .count();
    assert_eq!(exports, 1);
    assert_eq!(unexports, 1);
    // Both control writes carry the pin number.
    assert!(all.contains(&PinRequest::WriteExport(23)));
    assert_eq!(teardown, PinRequest::WriteUnexport(23));
}

#[test]
fn export_and_unexport_contents_carry_the_pin_number() {
    let export = PinRequest::WriteExport(23);
    assert_eq!(export.path(), "/sys/class/gpio/export");
    assert_eq!(export.content(), Some(String::from("23")));
    let unexport = PinRequest::WriteUnexport(23);
    assert_eq!(unexport.path(), "/sys/class/gpio/unexport");
    assert_eq!(unexport.content(), Some(String::from("23\n")));
}

#[test]
fn write_request_paths_and_contents() {
    let active_low = PinRequest::WriteActiveLow(4);
    assert_eq!(active_low.path(), "/sys/class/gpio/gpio4/active_low");
    assert_eq!(active_low.content(), Some(String::from("0")));
    let direction = PinRequest::WriteDirection(4, GpioDirection::Input);
    assert_eq!(direction.path(), "/sys/class/gpio/gpio4/direction");
    assert_eq!(direction.content(), Some(String::from("in")));
    let open = PinRequest::OpenValueChannel(4, GpioDirection::Input);
    assert_eq!(open.path(), "/sys/class/gpio/gpio4/value");
    assert_eq!(open.content(), None);
    let edge = PinRequest::WriteEdge(4, GpioEdge::Falling);
    assert_eq!(edge.path(), "/sys/class/gpio/gpio4/edge");
    assert_eq!(edge.content(), Some(String::from("falling")));
}

#[test]
fn switch_direction_preserves_identity() {
    let (mut pin, _) = PinLifecycle::open(23, GpioDirection::Output, false);
    assert_eq!(pin.gpio_num(), 23);
    assert_eq!(pin.direction(), GpioDirection::Output);
    let requests = pin.switch_direction(GpioDirection::Input);
    // The pin number is still 23 after the switch.
    assert_eq!(pin.gpio_num(), 23);
    assert_eq!(pin.direction(), GpioDirection::Input);
    // Only the direction write and the channel reopening are issued:
    // no new export, no polarity write.
    assert_eq!(
        requests,
        vec![
            PinRequest::WriteDirection(23, GpioDirection::Input),
            PinRequest::OpenValueChannel(23, GpioDirection::Input),
        ]
    );
}

#[test]
fn set_edge_issues_one_edge_write() {
    let (mut pin, _) = PinLifecycle::open(17, GpioDirection::Input, false);
    for (policy, wire) in [
        (GpioEdge::NoInterrupt, "none"),
        (GpioEdge::Rising, "rising"),
        (GpioEdge::Falling, "falling"),
        (GpioEdge::Both, "both"),
    ] {
        let request = pin.set_edge(policy);
        assert_eq!(request, PinRequest::WriteEdge(17, policy));
        assert_eq!(request.path(), "/sys/class/gpio/gpio17/edge");
        assert_eq!(request.content(), Some(String::from(wire)));
    }
}

#[test]
fn teardown_marks_the_handle_torn_down() {
    let (mut pin, _) = PinLifecycle::open(5, GpioDirection::Input, true);
    assert!(!pin.is_torn_down());
    let request = pin.teardown();
    assert_eq!(request, PinRequest::WriteUnexport(5));
    assert!(pin.is_torn_down());
}
