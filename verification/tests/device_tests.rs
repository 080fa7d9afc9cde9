use vfio_motion::input::{Device, EvdevProbe, HotplugAction, classify_mode, toggle_action};
use vfio_motion::outcome::OpError;

#[test]
fn probe_classification() {
    assert_eq!(classify_mode(None), EvdevProbe::Missing);
    // 0o020620: a character device with typical permission bits
    assert_eq!(classify_mode(Some(0o020620)), EvdevProbe::CharDevice);
    // 0o100644: a regular file
    assert_eq!(classify_mode(Some(0o100644)), EvdevProbe::OtherFile);
    // 0o040755: a directory
    assert_eq!(classify_mode(Some(0o040755)), EvdevProbe::OtherFile);
}

#[test]
fn from_probe_char_device_builds() {
    let d = Device::from_probe("gpu", "/dev/input/event5", EvdevProbe::CharDevice).unwrap();
    assert_eq!(d.domain(), "gpu");
    assert_eq!(d.evdev(), "/dev/input/event5");
    assert_eq!(
        d.payload(),
        "<input type='evdev'><source dev='/dev/input/event5'/></input>"
    );
}

#[test]
fn from_probe_missing_is_rejected() {
    let r = Device::from_probe("gpu", "/dev/input/event5", EvdevProbe::Missing);
    match r {
        Err(OpError::InvalidDevice { evdev }) => assert_eq!(evdev, "/dev/input/event5"),
        _ => panic!("expected InvalidDevice"),
    }
}

#[test]
fn from_probe_other_file_is_rejected() {
    let r = Device::from_probe("gpu", "/etc/motd", EvdevProbe::OtherFile);
    assert!(matches!(r, Err(OpError::InvalidDevice { .. })));
}

#[test]
fn new_accepts_char_device() {
    // /dev/null is a character-special file on any Linux host
    let d = Device::new("gpu", "/dev/null").unwrap();
    assert_eq!(d.evdev(), "/dev/null");
    assert_eq!(d.payload(), "<input type='evdev'><source dev='/dev/null'/></input>");
}

#[test]
fn new_rejects_missing_path() {
    let r = Device::new("gpu", "/dev/input/no-such-event-device");
    assert!(matches!(r, Err(OpError::InvalidDevice { .. })));
}

#[test]
fn new_rejects_non_char_device() {
    let r = Device::new("gpu", "/");
    assert!(matches!(r, Err(OpError::InvalidDevice { .. })));
}

#[test]
fn toggle_action_by_state() {
    assert_eq!(toggle_action(true), HotplugAction::Detach);
    assert_eq!(toggle_action(false), HotplugAction::Attach);
}

#[test]
fn attached_in_xml_substring() {
    let d = Device::from_probe("gpu", "/dev/input/event5", EvdevProbe::CharDevice).unwrap();
    let xml = String::from(
        "<domain><devices><input type='evdev'><source dev='/dev/input/event5'/></input></devices></domain>",
    );
    assert!(d.attached_in_xml(&Some(xml)));
    let other = String::from("<domain><devices><input type='mouse'/></devices></domain>");
    assert!(!d.attached_in_xml(&Some(other)));
}

#[test]
fn attached_query_fails_closed() {
    let d = Device::from_probe("gpu", "/dev/input/event5", EvdevProbe::CharDevice).unwrap();
    assert!(!d.attached_in_xml(&None));
}
