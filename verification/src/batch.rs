//! The toggle orchestrator.
//!
//! A trigger event toggles every configured device of the active domain, in
//! configured order. Within one batch the devices are processed one at a
//! time with a settle delay between them; a hard failure stops the batch
//! (fail fast), while benign refusals and successes move on to the next
//! device. The trigger stays armed for the next event regardless.

use vstd::prelude::*;
use crate::input::Device;

verus! {

/// Settle delay between two device toggles in one batch, in milliseconds.
/// Toggling key-emitting devices faster leaves keys logically stuck in the
/// guest.
pub const SETTLE_DELAY_MS: u64 = 300;

/// How many devices a batch attempts, given which toggles end in a hard
/// failure: the batch runs in order and stops at the first hard failure,
/// which is itself attempted.
pub open spec fn spec_attempted(hard: Seq<bool>) -> int
    decreases hard.len(),
{
    if hard.len() == 0 {
        0
    } else if hard[0] {
        1
    } else {
        1 + spec_attempted(hard.drop_first())
    }
}

/// Law: a batch is fail-fast. If the toggle of device `i` ends in a hard
/// failure, no device after position `i` is attempted in that batch.
pub proof fn lemma_batch_fail_fast(hard: Seq<bool>, i: int, j: int)
    requires
        0 <= i < hard.len(),
        hard[i],
        i < j,
    ensures
        spec_attempted(hard) <= i + 1 <= j,
    decreases i,
{
    if i > 0 && !hard[0] {
        lemma_batch_fail_fast(hard.drop_first(), i - 1, j - 1);
    }
}

/// One batch of device toggles, processed in configured order.
#[derive(Debug)]
pub struct ToggleBatch {
    devices: Vec<Device>,
    next: usize,
    stopped: bool,
}

impl ToggleBatch {
    /// The configured devices, in order.
    pub closed spec fn spec_devices(self) -> Seq<Device> {
        self.devices@
    }

    /// The position of the next device to toggle.
    pub closed spec fn spec_next(self) -> int {
        self.next as int
    }

    /// Whether a hard failure stopped the batch.
    pub closed spec fn spec_stopped(self) -> bool {
        self.stopped
    }

    pub open spec fn wf(self) -> bool {
        self.spec_next() <= self.spec_devices().len()
    }

    /// A fresh batch over the configured devices.
    pub fn new(devices: Vec<Device>) -> (b: ToggleBatch)
        ensures
            b.wf(),
            b.spec_devices() == devices@,
            b.spec_next() == 0,
            !b.spec_stopped(),
    {
        ToggleBatch { devices, next: 0, stopped: false }
    }

    /// The number of configured devices.
    pub fn len(&self) -> (n: usize)
        ensures
            n == self.spec_devices().len(),
    {
        self.devices.len()
    }

    /// The position of the next device to toggle, or nothing when the batch
    /// has finished or stopped at a hard failure.
    pub fn pending(&self) -> (r: Option<usize>)
        requires
            self.wf(),
        ensures
            match r {
                Some(i) => !self.spec_stopped() && i == self.spec_next() && i
                    < self.spec_devices().len(),
                None => self.spec_stopped() || self.spec_next() == self.spec_devices().len(),
            },
    {
        if self.stopped || self.next >= self.devices.len() {
            None
        } else {
            Some(self.next)
        }
    }

    /// The device at a position.
    pub fn device_at(&self, i: usize) -> (d: &Device)
        requires
            i < self.spec_devices().len(),
        ensures
            *d == self.spec_devices()[i as int],
    {
        &self.devices[i]
    }

    /// Record the outcome of the pending device's toggle: a hard failure
    /// stops the batch, anything else moves on to the next device.
    pub fn record(&mut self, hard_failure: bool)
        requires
            old(self).wf(),
            !old(self).spec_stopped(),
            old(self).spec_next() < old(self).spec_devices().len(),
        ensures
            final(self).wf(),
            final(self).spec_devices() == old(self).spec_devices(),
            final(self).spec_stopped() == hard_failure,
            final(self).spec_next() == if hard_failure {
                old(self).spec_next()
            } else {
                old(self).spec_next() + 1
            },
    {
        if hard_failure {
            self.stopped = true;
        } else {
            let n = self.devices.len();
            assert(self.next < n);
            self.next = self.next + 1;
        }
    }
}

} // verus!
