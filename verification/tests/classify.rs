use homewatch::device::{classify, DeviceDescription, Property};
use homewatch::errors::Errors;

fn prop(name: &str, value: &str) -> Property {
    Property { name: name.to_string(), value: value.to_string() }
}

fn joystick_device(devnode: Option<&str>) -> DeviceDescription {
    DeviceDescription {
        properties: vec![prop("ID_INPUT", "1"), prop("ID_INPUT_JOYSTICK", "1")],
        devnode: devnode.map(|p| p.to_string()),
    }
}

#[test]
fn device_without_marker_is_not_a_controller() {
    let d = DeviceDescription {
        properties: vec![prop("ID_INPUT", "1"), prop("ID_INPUT_KEYBOARD", "1")],
        devnode: Some("/dev/input/event3".to_string()),
    };
    assert!(matches!(classify(&d), Err(Errors::NotController)));
}

#[test]
fn device_with_no_properties_is_not_a_controller() {
    let d = DeviceDescription { properties: vec![], devnode: Some("/dev/input/event3".to_string()) };
    assert!(matches!(classify(&d), Err(Errors::NotController)));
}

#[test]
fn marker_must_have_truthy_value() {
    let d = DeviceDescription {
        properties: vec![prop("ID_INPUT_JOYSTICK", "0")],
        devnode: Some("/dev/input/event3".to_string()),
    };
    assert!(matches!(classify(&d), Err(Errors::NotController)));
}

#[test]
fn marked_device_without_node_has_no_path() {
    let d = joystick_device(None);
    assert!(matches!(classify(&d), Err(Errors::NoDevicePath)));
}

#[test]
fn marked_device_with_node_is_a_controller() {
    let d = joystick_device(Some("/dev/input/event7"));
    let c = classify(&d).expect("a marked device with a node classifies");
    assert_eq!(c.path, "/dev/input/event7");
}

#[test]
fn marker_position_does_not_matter() {
    let d = DeviceDescription {
        properties: vec![prop("ID_INPUT_JOYSTICK", "1"), prop("ID_INPUT", "1")],
        devnode: Some("/dev/input/event9".to_string()),
    };
    let c = classify(&d).expect("marker first classifies too");
    assert_eq!(c.path, "/dev/input/event9");
}

#[test]
fn reclassifying_the_same_device_yields_the_same_result() {
    let with_node = joystick_device(Some("/dev/input/event7"));
    for _ in 0..3 {
        let c = classify(&with_node).expect("classifies every time");
        assert_eq!(c.path, "/dev/input/event7");
    }
    let without_marker = DeviceDescription {
        properties: vec![prop("ID_INPUT_KEYBOARD", "1")],
        devnode: Some("/dev/input/event3".to_string()),
    };
    for _ in 0..3 {
        assert!(matches!(classify(&without_marker), Err(Errors::NotController)));
    }
}
