use vfio_motion::input::{CmdResponse, Device, EvdevProbe};
use vfio_motion::libvirt::{
    VIR_ERR_INTERNAL_ERROR, VIR_ERR_OPERATION_FAILED, attach_benign, attach_busy_message_of,
    detach_benign, detach_missing_message_of,
};
use vfio_motion::outcome::{OpError, OpOutcome};

fn device() -> Device {
    Device::from_probe("gpu", "/dev/input/event5", EvdevProbe::CharDevice).unwrap()
}

#[test]
fn busy_message_text() {
    assert_eq!(
        attach_busy_message_of("/dev/input/event5"),
        "internal error: unable to execute QEMU command 'device_add': /dev/input/event5: \
         failed to get exclusive access: Device or resource busy"
    );
}

#[test]
fn missing_message_text() {
    assert_eq!(
        detach_missing_message_of(),
        "operation failed: matching input device not found"
    );
}

#[test]
fn attach_success_classifies_attached() {
    let out = device().attach_outcome(&CmdResponse::Success);
    assert_eq!(out, Ok(OpOutcome::Attached));
}

#[test]
fn attach_duplicate_classifies_already_attached() {
    let resp = CmdResponse::Failure {
        code: VIR_ERR_INTERNAL_ERROR,
        message: attach_busy_message_of("/dev/input/event5"),
    };
    let out = device().attach_outcome(&resp);
    assert_eq!(out, Ok(OpOutcome::AlreadyAttached));
}

#[test]
fn attach_other_message_is_hard_failure() {
    let resp = CmdResponse::Failure {
        code: VIR_ERR_INTERNAL_ERROR,
        message: String::from("internal error: some other condition"),
    };
    match device().attach_outcome(&resp) {
        Err(OpError::HardFailure { code, message }) => {
            assert_eq!(code, VIR_ERR_INTERNAL_ERROR);
            assert_eq!(message, "internal error: some other condition");
        }
        other => panic!("expected HardFailure, got {:?}", other),
    }
}

#[test]
fn attach_wrong_code_is_hard_failure() {
    // the exact busy text under a different error code stays a hard failure
    let resp = CmdResponse::Failure {
        code: VIR_ERR_OPERATION_FAILED,
        message: attach_busy_message_of("/dev/input/event5"),
    };
    assert!(matches!(
        device().attach_outcome(&resp),
        Err(OpError::HardFailure { .. })
    ));
}

#[test]
fn attach_other_devices_message_is_hard_failure() {
    // the busy text for a different evdev does not classify as benign
    let resp = CmdResponse::Failure {
        code: VIR_ERR_INTERNAL_ERROR,
        message: attach_busy_message_of("/dev/input/event7"),
    };
    assert!(matches!(
        device().attach_outcome(&resp),
        Err(OpError::HardFailure { .. })
    ));
}

#[test]
fn detach_success_classifies_detached() {
    let out = device().detach_outcome(&CmdResponse::Success);
    assert_eq!(out, Ok(OpOutcome::Detached));
}

#[test]
fn detach_not_found_classifies_already_detached() {
    let resp = CmdResponse::Failure {
        code: VIR_ERR_OPERATION_FAILED,
        message: detach_missing_message_of(),
    };
    let out = device().detach_outcome(&resp);
    assert_eq!(out, Ok(OpOutcome::AlreadyDetached));
}

#[test]
fn detach_other_failure_is_hard() {
    let resp = CmdResponse::Failure {
        code: VIR_ERR_OPERATION_FAILED,
        message: String::from("operation failed: domain is not running"),
    };
    assert!(matches!(
        device().detach_outcome(&resp),
        Err(OpError::HardFailure { .. })
    ));
}

#[test]
fn benign_predicates() {
    assert!(attach_benign(
        VIR_ERR_INTERNAL_ERROR,
        attach_busy_message_of("kbd0").as_str(),
        "kbd0"
    ));
    assert!(!attach_benign(VIR_ERR_INTERNAL_ERROR, "something else", "kbd0"));
    assert!(detach_benign(
        VIR_ERR_OPERATION_FAILED,
        "operation failed: matching input device not found"
    ));
    assert!(!detach_benign(
        VIR_ERR_INTERNAL_ERROR,
        "operation failed: matching input device not found"
    ));
}

#[test]
fn describe_renders_each_variant() {
    let e = OpError::InvalidDevice { evdev: String::from("/dev/fb0") };
    assert_eq!(e.describe(), "invalid evdev '/dev/fb0'");
    let e = OpError::NotFound { domain: String::from("gpu") };
    assert_eq!(e.describe(), "domain 'gpu' not found or not running");
    let e = OpError::Transport { message: String::from("connection refused") };
    assert_eq!(e.describe(), "transport error: connection refused");
    let e = OpError::HardFailure { code: 1, message: String::from("internal error") };
    assert_eq!(e.describe(), "hypervisor error: internal error");
}
