//! The libvirt-facing error translation table.
//!
//! Distinguishing a benign "device already in the requested state" refusal
//! from a genuine failure is only possible by matching the hypervisor's
//! error code and message text. The patterns here are backend-version
//! sensitive and deliberately isolated in this module; anything they do not
//! recognize classifies as a hard failure.

use vstd::prelude::*;
use crate::text;

verus! {

/// libvirt's code for internal errors (`VIR_ERR_INTERNAL_ERROR`), carried by
/// the duplicate-device reply QEMU gives to an attach of an attached device.
pub const VIR_ERR_INTERNAL_ERROR: i32 = 1;

/// libvirt's code for failed operations (`VIR_ERR_OPERATION_FAILED`), carried
/// by the reply to a detach of a device that is not attached.
pub const VIR_ERR_OPERATION_FAILED: i32 = 9;

/// The message text QEMU reports through libvirt when an attach finds the
/// evdev already grabbed by the domain.
pub open spec fn attach_busy_message(evdev: Seq<char>) -> Seq<char> {
    "internal error: unable to execute QEMU command 'device_add': "@ + evdev
        + ": failed to get exclusive access: Device or resource busy"@
}

/// The message text libvirt reports when a detach finds no matching input
/// device in the domain.
pub open spec fn detach_missing_message() -> Seq<char> {
    "operation failed: matching input device not found"@
}

/// Render `attach_busy_message` for a concrete evdev id.
pub fn attach_busy_message_of(evdev: &str) -> (m: String)
    ensures
        m@ == attach_busy_message(evdev@),
{
    let s = String::from_str("internal error: unable to execute QEMU command 'device_add': ");
    let s = s.concat(evdev);
    s.concat(": failed to get exclusive access: Device or resource busy")
}

/// Render `detach_missing_message`.
pub fn detach_missing_message_of() -> (m: String)
    ensures
        m@ == detach_missing_message(),
{
    String::from_str("operation failed: matching input device not found")
}

/// A failed attach is benign exactly when it is the duplicate-device reply
/// for this evdev.
pub open spec fn spec_attach_benign(code: int, message: Seq<char>, evdev: Seq<char>) -> bool {
    code == VIR_ERR_INTERNAL_ERROR as int && message == attach_busy_message(evdev)
}

/// A failed detach is benign exactly when it is the no-matching-device reply.
pub open spec fn spec_detach_benign(code: int, message: Seq<char>) -> bool {
    code == VIR_ERR_OPERATION_FAILED as int && message == detach_missing_message()
}

/// Decide `spec_attach_benign` on a concrete reply.
pub fn attach_benign(code: i32, message: &str, evdev: &str) -> (b: bool)
    ensures
        b == spec_attach_benign(code as int, message@, evdev@),
{
    if code != VIR_ERR_INTERNAL_ERROR {
        return false;
    }
    let expected = attach_busy_message_of(evdev);
    text::str_eq(message, expected.as_str())
}

/// Decide `spec_detach_benign` on a concrete reply.
pub fn detach_benign(code: i32, message: &str) -> (b: bool)
    ensures
        b == spec_detach_benign(code as int, message@),
{
    if code != VIR_ERR_OPERATION_FAILED {
        return false;
    }
    let expected = detach_missing_message_of();
    text::str_eq(message, expected.as_str())
}

} // verus!
