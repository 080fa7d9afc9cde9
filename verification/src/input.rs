//! The device attach/detach engine.
//!
//! A `Device` binds a domain name to an evdev id and carries the hot-plug
//! payload derived from them at construction. The engine functions classify
//! hypervisor replies into the stable outcome taxonomy and drive the
//! attach / detach / toggle state machine; the backends perform the actual
//! calls and hand their replies here as plain values.

use vstd::prelude::*;
use crate::libvirt;
use crate::outcome::{OpError, OpOutcome};
use crate::text;

verus! {

/// The file-type bits of a Unix `st_mode` (`S_IFMT`).
pub const MODE_TYPE_MASK: u32 = 0o170000;

/// The file-type value of a character-special file (`S_IFCHR`).
pub const MODE_CHAR_DEVICE: u32 = 0o020000;

/// What probing an evdev path on the host found.
#[derive(Clone, Copy, Debug, PartialEq, Eq, Structural)]
pub enum EvdevProbe {
    CharDevice,
    OtherFile,
    Missing,
}

/// Classification of a probed `st_mode`: a missing file, a character-special
/// file, or anything else.
pub open spec fn spec_probe_of_mode(mode: Option<u32>) -> EvdevProbe {
    match mode {
        Option::None => EvdevProbe::Missing,
        Option::Some(m) => if m & MODE_TYPE_MASK == MODE_CHAR_DEVICE {
            EvdevProbe::CharDevice
        } else {
            EvdevProbe::OtherFile
        },
    }
}

/// Relies on nix::sys::stat::stat: on success it hands back the file's
/// `st_mode` bits for the path; on any error (a missing path among them)
/// there is no mode to report.
#[verifier::external_body]
fn stat_mode(path: &str) -> (r: Option<u32>) {
    match nix::sys::stat::stat(path) {
        Ok(s) => Some(s.st_mode),
        Err(_) => None,
    }
}

/// Decide `spec_probe_of_mode` on a probed mode.
pub fn classify_mode(mode: Option<u32>) -> (p: EvdevProbe)
    ensures
        p == spec_probe_of_mode(mode),
{
    match mode {
        None => EvdevProbe::Missing,
        Some(m) => if m & MODE_TYPE_MASK == MODE_CHAR_DEVICE {
            EvdevProbe::CharDevice
        } else {
            EvdevProbe::OtherFile
        },
    }
}

/// Probe an evdev path on this host. The result reflects the filesystem at
/// the moment of the call.
pub fn probe_evdev(path: &str) -> EvdevProbe {
    classify_mode(stat_mode(path))
}

/// The hot-plug descriptor sent to the hypervisor for an evdev input device.
pub open spec fn xml_payload(evdev: Seq<char>) -> Seq<char> {
    "<input type='evdev'><source dev='"@ + evdev + "'/></input>"@
}

/// Render `xml_payload` for a concrete evdev id.
pub fn xml_payload_of(evdev: &str) -> (x: String)
    ensures
        x@ == xml_payload(evdev@),
{
    let s = String::from_str("<input type='evdev'><source dev='");
    let s = s.concat(evdev);
    s.concat("'/></input>")
}

/// An immutable identity binding of a domain name and an evdev id, plus the
/// hot-plug payload derived from the evdev id at construction.
#[derive(Clone, Debug, PartialEq, Eq)]
pub struct Device {
    domain: String,
    evdev: String,
    xml: String,
}

/// The abstract value of a `Device`.
pub struct DeviceView {
    pub domain: Seq<char>,
    pub evdev: Seq<char>,
    pub payload: Seq<char>,
}

impl View for Device {
    type V = DeviceView;

    closed spec fn view(&self) -> DeviceView {
        DeviceView { domain: self.domain@, evdev: self.evdev@, payload: self.xml@ }
    }
}

impl Device {
    /// The payload is the one derived from the evdev id; constructors
    /// establish this and nothing mutates it afterwards.
    pub open spec fn wf(self) -> bool {
        self@.payload == xml_payload(self@.evdev)
    }

    /// Build a device from the result of probing its evdev path.
    /// Construction succeeds exactly when the probe found a character-special
    /// file; no hypervisor call is involved.
    pub fn from_probe(domain: &str, evdev: &str, probe: EvdevProbe) -> (r: Result<Device, OpError>)
        ensures
            probe == EvdevProbe::CharDevice ==> (r matches Ok(d) && d.wf() && d@.domain
                == domain@ && d@.evdev == evdev@),
            probe != EvdevProbe::CharDevice ==> (r matches Err(OpError::InvalidDevice {
                evdev: ev,
            }) && ev@ == evdev@),
    {
        match probe {
            EvdevProbe::CharDevice => Ok(
                Device {
                    domain: String::from_str(domain),
                    evdev: String::from_str(evdev),
                    xml: xml_payload_of(evdev),
                },
            ),
            _ => Err(OpError::InvalidDevice { evdev: String::from_str(evdev) }),
        }
    }

    /// Build a device for the native backend, probing the evdev path on this
    /// host. Fails with `InvalidDevice` unless the path names an existing
    /// character-special file at the moment of the call.
    pub fn new(domain: &str, evdev: &str) -> (r: Result<Device, OpError>)
        ensures
            r matches Ok(d) ==> d.wf() && d@.domain == domain@ && d@.evdev == evdev@,
            r matches Err(e) ==> (e matches OpError::InvalidDevice { evdev: ev } && ev@
                == evdev@),
    {
        let probe = probe_evdev(evdev);
        Device::from_probe(domain, evdev, probe)
    }

    /// The domain name this device targets.
    pub fn domain(&self) -> (r: &str)
        ensures
            r@ == self@.domain,
    {
        self.domain.as_str()
    }

    /// The evdev id of this device.
    pub fn evdev(&self) -> (r: &str)
        ensures
            r@ == self@.evdev,
    {
        self.evdev.as_str()
    }

    /// The hot-plug payload sent to the hypervisor.
    pub fn payload(&self) -> (r: &str)
        ensures
            r@ == self@.payload,
    {
        self.xml.as_str()
    }
}

/// A hypervisor's reply to one attach or detach command, as plain values.
#[derive(Clone, Debug, PartialEq, Eq)]
pub enum CmdResponse {
    Success,
    Failure { code: i32, message: String },
}

pub open spec fn resp_success(r: CmdResponse) -> bool {
    r is Success
}

pub open spec fn resp_code(r: CmdResponse) -> int {
    match r {
        CmdResponse::Success => 0,
        CmdResponse::Failure { code, message: _ } => code as int,
    }
}

pub open spec fn resp_message(r: CmdResponse) -> Seq<char> {
    match r {
        CmdResponse::Success => Seq::empty(),
        CmdResponse::Failure { code: _, message } => message@,
    }
}

/// How an attach reply classifies.
#[derive(Clone, Copy, Debug, PartialEq, Eq, Structural)]
pub enum AttachClass {
    Attached,
    AlreadyAttached,
    HardFailure,
}

/// How a detach reply classifies.
#[derive(Clone, Copy, Debug, PartialEq, Eq, Structural)]
pub enum DetachClass {
    Detached,
    AlreadyDetached,
    HardFailure,
}

/// Classification of an attach reply given as plain values: success means
/// attached, the duplicate-device pattern is the benign no-op, and any other
/// failure is hard.
pub open spec fn spec_attach_class_of(
    success: bool,
    code: int,
    message: Seq<char>,
    evdev: Seq<char>,
) -> AttachClass {
    if success {
        AttachClass::Attached
    } else if libvirt::spec_attach_benign(code, message, evdev) {
        AttachClass::AlreadyAttached
    } else {
        AttachClass::HardFailure
    }
}

pub open spec fn spec_attach_class(r: CmdResponse, evdev: Seq<char>) -> AttachClass {
    spec_attach_class_of(resp_success(r), resp_code(r), resp_message(r), evdev)
}

/// Classification of a detach reply, symmetric to `spec_attach_class_of`.
pub open spec fn spec_detach_class_of(success: bool, code: int, message: Seq<char>) -> DetachClass {
    if success {
        DetachClass::Detached
    } else if libvirt::spec_detach_benign(code, message) {
        DetachClass::AlreadyDetached
    } else {
        DetachClass::HardFailure
    }
}

pub open spec fn spec_detach_class(r: CmdResponse) -> DetachClass {
    spec_detach_class_of(resp_success(r), resp_code(r), resp_message(r))
}

/// The command a toggle must issue, from the observed attached state.
#[derive(Clone, Copy, Debug, PartialEq, Eq, Structural)]
pub enum HotplugAction {
    Attach,
    Detach,
}

/// The command a toggle issues: detach an attached device, attach a detached
/// one.
pub fn toggle_action(attached: bool) -> (a: HotplugAction)
    ensures
        a == (if attached {
            HotplugAction::Detach
        } else {
            HotplugAction::Attach
        }),
{
    if attached {
        HotplugAction::Detach
    } else {
        HotplugAction::Attach
    }
}

impl Device {
    /// Whether the domain's live XML description references this device's
    /// evdev id, by substring match; a failed query is treated as detached
    /// (fail closed, so that a later attach is attempted rather than
    /// nothing). The substring match is a documented approximation: a false
    /// positive needs the evdev id to occur elsewhere in the XML.
    pub fn attached_in_xml(&self, xml: &Option<String>) -> (b: bool)
        ensures
            b == (xml matches Some(x) && text::seq_contains(x@, self@.evdev)),
    {
        match xml {
            Some(x) => text::str_contains(x.as_str(), self.evdev.as_str()),
            None => false,
        }
    }

    /// Classify the hypervisor's reply to an attach of this device:
    /// success is `Attached`, the duplicate-device pattern is the benign
    /// `AlreadyAttached`, anything else propagates as `HardFailure`.
    pub fn attach_outcome(&self, resp: &CmdResponse) -> (r: Result<OpOutcome, OpError>)
        ensures
            spec_attach_class(*resp, self@.evdev) == AttachClass::Attached ==> r == Ok::<
                OpOutcome,
                OpError,
            >(OpOutcome::Attached),
            spec_attach_class(*resp, self@.evdev) == AttachClass::AlreadyAttached ==> r == Ok::<
                OpOutcome,
                OpError,
            >(OpOutcome::AlreadyAttached),
            spec_attach_class(*resp, self@.evdev) == AttachClass::HardFailure ==> (r matches Err(
                OpError::HardFailure { code, message },
            ) && code as int == resp_code(*resp) && message@ == resp_message(*resp)),
    {
        match resp {
            CmdResponse::Success => Ok(OpOutcome::Attached),
            CmdResponse::Failure { code, message } => {
                if libvirt::attach_benign(*code, message.as_str(), self.evdev.as_str()) {
                    Ok(OpOutcome::AlreadyAttached)
                } else {
                    Err(OpError::HardFailure { code: *code, message: message.clone() })
                }
            },
        }
    }

    /// Classify the hypervisor's reply to a detach of this device, symmetric
    /// to `attach_outcome`.
    pub fn detach_outcome(&self, resp: &CmdResponse) -> (r: Result<OpOutcome, OpError>)
        ensures
            spec_detach_class(*resp) == DetachClass::Detached ==> r == Ok::<
                OpOutcome,
                OpError,
            >(OpOutcome::Detached),
            spec_detach_class(*resp) == DetachClass::AlreadyDetached ==> r == Ok::<
                OpOutcome,
                OpError,
            >(OpOutcome::AlreadyDetached),
            spec_detach_class(*resp) == DetachClass::HardFailure ==> (r matches Err(
                OpError::HardFailure { code, message },
            ) && code as int == resp_code(*resp) && message@ == resp_message(*resp)),
    {
        match resp {
            CmdResponse::Success => Ok(OpOutcome::Detached),
            CmdResponse::Failure { code, message } => {
                if libvirt::detach_benign(*code, message.as_str()) {
                    Ok(OpOutcome::AlreadyDetached)
                } else {
                    Err(OpError::HardFailure { code: *code, message: message.clone() })
                }
            },
        }
    }

    /// The result of a toggle, given the attached state observed before it
    /// and the hypervisor's reply to the command `toggle_action` chose.
    /// On success the returned value is the attached state after the
    /// operation; a benign refusal counts as success.
    pub fn toggle_outcome(&self, attached_before: bool, resp: &CmdResponse) -> (r: Result<
        bool,
        OpError,
    >)
        ensures
            attached_before && spec_detach_class(*resp) != DetachClass::HardFailure ==> r == Ok::<
                bool,
                OpError,
            >(false),
            !attached_before && spec_attach_class(*resp, self@.evdev) != AttachClass::HardFailure
                ==> r == Ok::<bool, OpError>(true),
            (if attached_before {
                spec_detach_class(*resp) == DetachClass::HardFailure
            } else {
                spec_attach_class(*resp, self@.evdev) == AttachClass::HardFailure
            }) ==> (r matches Err(OpError::HardFailure { code, message }) && code as int
                == resp_code(*resp) && message@ == resp_message(*resp)),
    {
        if attached_before {
            match self.detach_outcome(resp) {
                Ok(_) => Ok(false),
                Err(e) => Err(e),
            }
        } else {
            match self.attach_outcome(resp) {
                Ok(_) => Ok(true),
                Err(e) => Err(e),
            }
        }
    }
}

// ---------------------------------------------------------------------------
// The hypervisor model.
//
// The domain's live configuration is modeled as the set of evdev ids it has
// attached. The model spec functions state the replies the backend gives to
// attach and detach commands, as observed from QEMU through libvirt: an
// attach of a present device draws the duplicate-device error, a detach of
// an absent device draws the no-matching-device error, and both leave the
// set unchanged. The laws below are proved against this model.
// ---------------------------------------------------------------------------

/// Whether the modeled domain has the evdev attached.
pub open spec fn domain_has(cfg: Set<Seq<char>>, evdev: Seq<char>) -> bool {
    cfg.contains(evdev)
}

/// How the reply to an attach command classifies, per the model.
pub open spec fn model_attach_class(cfg: Set<Seq<char>>, evdev: Seq<char>) -> AttachClass {
    if domain_has(cfg, evdev) {
        spec_attach_class_of(
            false,
            libvirt::VIR_ERR_INTERNAL_ERROR as int,
            libvirt::attach_busy_message(evdev),
            evdev,
        )
    } else {
        spec_attach_class_of(true, 0, Seq::empty(), evdev)
    }
}

/// The domain's live set after an attach command.
pub open spec fn model_attach_next(cfg: Set<Seq<char>>, evdev: Seq<char>) -> Set<Seq<char>> {
    if domain_has(cfg, evdev) {
        cfg
    } else {
        cfg.insert(evdev)
    }
}

/// How the reply to a detach command classifies, per the model.
pub open spec fn model_detach_class(cfg: Set<Seq<char>>, evdev: Seq<char>) -> DetachClass {
    if domain_has(cfg, evdev) {
        spec_detach_class_of(true, 0, Seq::empty())
    } else {
        spec_detach_class_of(
            false,
            libvirt::VIR_ERR_OPERATION_FAILED as int,
            libvirt::detach_missing_message(),
        )
    }
}

/// The domain's live set after a detach command.
pub open spec fn model_detach_next(cfg: Set<Seq<char>>, evdev: Seq<char>) -> Set<Seq<char>> {
    if domain_has(cfg, evdev) {
        cfg.remove(evdev)
    } else {
        cfg
    }
}

/// The domain's live set after a toggle (detach if attached, else attach).
pub open spec fn model_toggle_next(cfg: Set<Seq<char>>, evdev: Seq<char>) -> Set<Seq<char>> {
    if domain_has(cfg, evdev) {
        model_detach_next(cfg, evdev)
    } else {
        model_attach_next(cfg, evdev)
    }
}

/// The attached state a successful toggle reports: the state after the
/// operation.
pub open spec fn model_toggle_result(cfg: Set<Seq<char>>, evdev: Seq<char>) -> bool {
    !domain_has(cfg, evdev)
}

/// Law: detach is idempotent. For a device already detached, the detach
/// classifies as the benign `AlreadyDetached` - never a hard failure - and
/// the device stays detached.
pub proof fn lemma_detach_idempotent(cfg: Set<Seq<char>>, evdev: Seq<char>)
    requires
        !domain_has(cfg, evdev),
    ensures
        model_detach_class(cfg, evdev) == DetachClass::AlreadyDetached,
        model_detach_next(cfg, evdev) =~= cfg,
        !domain_has(model_detach_next(cfg, evdev), evdev),
{
}

/// Law: attach is idempotent. For a device already attached, the attach
/// classifies as the benign `AlreadyAttached` - never a hard failure - and
/// the device stays attached.
pub proof fn lemma_attach_idempotent(cfg: Set<Seq<char>>, evdev: Seq<char>)
    requires
        domain_has(cfg, evdev),
    ensures
        model_attach_class(cfg, evdev) == AttachClass::AlreadyAttached,
        model_attach_next(cfg, evdev) =~= cfg,
        domain_has(model_attach_next(cfg, evdev), evdev),
{
}

/// Law: toggling twice returns to the original attached state (absent
/// external changes between the calls), and the second toggle reports the
/// original state.
pub proof fn lemma_toggle_round_trip(cfg: Set<Seq<char>>, evdev: Seq<char>)
    ensures
        model_toggle_result(cfg, evdev) == !domain_has(cfg, evdev),
        model_toggle_next(model_toggle_next(cfg, evdev), evdev) =~= cfg,
        domain_has(model_toggle_next(model_toggle_next(cfg, evdev), evdev), evdev) == domain_has(
            cfg,
            evdev,
        ),
        model_toggle_result(model_toggle_next(cfg, evdev), evdev) == domain_has(cfg, evdev),
{
    assert(model_toggle_next(model_toggle_next(cfg, evdev), evdev) =~= cfg);
}

} // verus!
