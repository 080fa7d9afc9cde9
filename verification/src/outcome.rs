//! The stable result taxonomy of device hot-plug operations.

use vstd::prelude::*;

verus! {

/// How an attach or detach operation ended when it did not fail hard.
///
/// `AlreadyAttached` and `AlreadyDetached` are benign: the hypervisor refused
/// the command only because the device was already in the requested state, so
/// the operation is treated as a successful no-op.
#[derive(Clone, Copy, Debug, PartialEq, Eq, Structural)]
pub enum OpOutcome {
    Attached,
    AlreadyAttached,
    Detached,
    AlreadyDetached,
}

/// An operation failure, classified at the backend boundary.
#[derive(Clone, Debug, PartialEq, Eq)]
pub enum OpError {
    /// The evdev path does not name an existing character-special file;
    /// raised at device construction, before any hypervisor call.
    InvalidDevice { evdev: String },
    /// The domain name does not resolve to a running virtual machine.
    NotFound { domain: String },
    /// The hypervisor or the HTTP backend could not be reached.
    Transport { message: String },
    /// Any hypervisor-reported error that is not one of the recognized
    /// benign patterns.
    HardFailure { code: i32, message: String },
}

/// The message text of an `InvalidDevice` error.
pub open spec fn invalid_device_message(evdev: Seq<char>) -> Seq<char> {
    "invalid evdev '"@ + evdev + "'"@
}

/// The message text of a `NotFound` error.
pub open spec fn not_found_message(domain: Seq<char>) -> Seq<char> {
    "domain '"@ + domain + "' not found or not running"@
}

/// The message text of a `Transport` error.
pub open spec fn transport_message(detail: Seq<char>) -> Seq<char> {
    "transport error: "@ + detail
}

/// The message text of a `HardFailure` error.
pub open spec fn hard_failure_message(detail: Seq<char>) -> Seq<char> {
    "hypervisor error: "@ + detail
}

/// The rendered description of an error, by variant.
pub open spec fn spec_describe(e: OpError) -> Seq<char> {
    match e {
        OpError::InvalidDevice { evdev } => invalid_device_message(evdev@),
        OpError::NotFound { domain } => not_found_message(domain@),
        OpError::Transport { message } => transport_message(message@),
        OpError::HardFailure { code: _, message } => hard_failure_message(message@),
    }
}

impl OpError {
    /// A one-line human-readable description of the error.
    pub fn describe(&self) -> (r: String)
        ensures
            r@ == spec_describe(*self),
    {
        match self {
            OpError::InvalidDevice { evdev } => {
                let s = String::from_str("invalid evdev '");
                let s = s.concat(evdev.as_str());
                s.concat("'")
            },
            OpError::NotFound { domain } => {
                let s = String::from_str("domain '");
                let s = s.concat(domain.as_str());
                s.concat("' not found or not running")
            },
            OpError::Transport { message } => {
                let s = String::from_str("transport error: ");
                s.concat(message.as_str())
            },
            OpError::HardFailure { code: _, message } => {
                let s = String::from_str("hypervisor error: ");
                s.concat(message.as_str())
            },
        }
    }
}

} // verus!
