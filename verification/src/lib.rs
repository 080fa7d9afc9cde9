//! Hot-plug toggling of host input devices (evdev character devices) into a
//! running virtual machine, against a hypervisor backend.
//!
//! The crate provides the device attach/detach engine: deciding, for a given
//! (domain, evdev) pair, whether the device is currently attached, classifying
//! the hypervisor's replies into a small stable result type, and serializing
//! batches of toggles. The backends themselves (a native hypervisor session,
//! or an HTTP proxy in front of one) perform the actual calls and hand their
//! replies to the functions here.

pub mod batch;
pub mod config;
pub mod http;
pub mod input;
pub mod libvirt;
pub mod loglevel;
pub mod outcome;
pub mod server_config;
pub mod text;
pub mod util;
pub mod win;
