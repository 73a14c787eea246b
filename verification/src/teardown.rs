//! Deterministic teardown of a provisioned partition, in reverse dependency
//! order, as a guard the caller drives to completion.
//!
//! The guard consumes the handle, so teardown happens at most once per handle;
//! driving the guard until `next_action` returns `None` makes it exactly once.
//! Teardown is best-effort: every step is attempted exactly once whatever the
//! earlier steps reported, and the steps that failed are collected in order
//! rather than aborting the remaining cleanup — aborting mid-teardown would
//! leak the loop device whenever an earlier step failed.

use vstd::prelude::*;

use crate::handle::TestLoopPartition;
use crate::text::copy_range;

verus! {

/// One cleanup step, in reverse dependency order of provisioning.
#[derive(Clone, Copy, Debug, PartialEq, Eq, Structural)]
pub enum TeardownStep {
    /// Remove the single partition's entry from the partition table.
    RemovePartition,
    /// Detach the backing file from the loop device.
    DetachDevice,
    /// Delete the backing image file.
    DeleteImage,
    /// Remove the temporary folder tree, recursively.
    RemoveTmpDir,
}

/// The number of teardown steps.
pub const TEARDOWN_STEPS: usize = 4;

/// The cleanup step performed at position `i` of the fixed order.
pub open spec fn step_at(i: int) -> TeardownStep {
    if i == 0 {
        TeardownStep::RemovePartition
    } else if i == 1 {
        TeardownStep::DetachDevice
    } else if i == 2 {
        TeardownStep::DeleteImage
    } else {
        TeardownStep::RemoveTmpDir
    }
}

/// One action the caller must perform to advance teardown, with its argument
/// taken from the handle being torn down.
#[derive(Debug)]
pub enum TeardownAction {
    /// Remove partition 1 from the device's partition table.
    RemovePartition { device: Vec<char> },
    /// Detach the loop device.
    DetachDevice { device: Vec<char> },
    /// Delete the backing image file.
    DeleteImage { path: Vec<char> },
    /// Remove the temporary folder tree, recursively.
    RemoveTmpDir { path: Vec<char> },
}

/// The teardown state for one handle.
#[derive(Debug)]
pub struct LifecycleGuard {
    /// The handle being torn down; consumed by the guard.
    pub handle: TestLoopPartition,
    /// How many of the four steps have been attempted.
    pub attempted: usize,
    /// The steps that reported failure, in the order they were attempted.
    pub failures: Vec<TeardownStep>,
}

impl LifecycleGuard {
    /// `attempted` never passes the number of steps.
    pub open spec fn wf(self) -> bool {
        0 <= self.attempted <= TEARDOWN_STEPS
    }

    /// Takes ownership of a handle and prepares its teardown. The handle is
    /// consumed: no second teardown can be started for it.
    pub fn new(handle: TestLoopPartition) -> (r: Self)
        ensures
            r.wf(),
            r.attempted == 0,
            r.failures@ == Seq::<TeardownStep>::empty(),
            r.handle == handle,
    {
        LifecycleGuard { handle, attempted: 0, failures: Vec::new() }
    }

    /// The cleanup action the caller must perform next, or `None` once every
    /// step has been attempted. The order is fixed: partition entry, device
    /// attachment, image file, temporary folder.
    pub fn next_action(&self) -> (r: Option<TeardownAction>)
        requires
            self.wf(),
        ensures
            match r {
                None => self.attempted == TEARDOWN_STEPS,
                Some(a) => self.attempted < TEARDOWN_STEPS && match step_at(self.attempted as int) {
                    TeardownStep::RemovePartition => a matches TeardownAction::RemovePartition {
                        device,
                    } && device@ == self.handle.loop_device_name@,
                    TeardownStep::DetachDevice => a matches TeardownAction::DetachDevice { device }
                        && device@ == self.handle.loop_device_name@,
                    TeardownStep::DeleteImage => a matches TeardownAction::DeleteImage { path }
                        && path@ == self.handle.loop_device_img_file@,
                    TeardownStep::RemoveTmpDir => a matches TeardownAction::RemoveTmpDir { path }
                        && path@ == self.handle.tmp_folder@,
                },
            },
    {
        if self.attempted == 0 {
            Some(
                TeardownAction::RemovePartition {
                    device: copy_of(self.handle.loop_device_name.as_slice()),
                },
            )
        } else if self.attempted == 1 {
            Some(
                TeardownAction::DetachDevice {
                    device: copy_of(self.handle.loop_device_name.as_slice()),
                },
            )
        } else if self.attempted == 2 {
            Some(
                TeardownAction::DeleteImage {
                    path: copy_of(self.handle.loop_device_img_file.as_slice()),
                },
            )
        } else if self.attempted == 3 {
            Some(TeardownAction::RemoveTmpDir { path: copy_of(self.handle.tmp_folder.as_slice()) })
        } else {
            None
        }
    }

    /// Records the outcome of the pending step and moves on to the next one
    /// whatever that outcome was; a failure is appended to `failures` instead
    /// of stopping the remaining cleanup.
    pub fn step_done(&mut self, ok: bool)
        requires
            old(self).wf(),
            old(self).attempted < TEARDOWN_STEPS,
        ensures
            final(self).wf(),
            final(self).attempted == old(self).attempted + 1,
            final(self).handle == old(self).handle,
            final(self).failures@ == if ok {
                old(self).failures@
            } else {
                old(self).failures@.push(step_at(old(self).attempted as int))
            },
    {
        if !ok {
            let step = if self.attempted == 0 {
                TeardownStep::RemovePartition
            } else if self.attempted == 1 {
                TeardownStep::DetachDevice
            } else if self.attempted == 2 {
                TeardownStep::DeleteImage
            } else {
                TeardownStep::RemoveTmpDir
            };
            self.failures.push(step);
        }
        self.attempted = self.attempted + 1;
    }

    /// Whether every cleanup step has been attempted.
    pub fn finished(&self) -> (r: bool)
        ensures
            r == (self.attempted == TEARDOWN_STEPS),
    {
        self.attempted == TEARDOWN_STEPS
    }

    /// Whether every cleanup step has been attempted and none failed.
    pub fn clean(&self) -> (r: bool)
        ensures
            r == (self.attempted == TEARDOWN_STEPS && self.failures@.len() == 0),
    {
        self.attempted == TEARDOWN_STEPS && self.failures.len() == 0
    }
}

/// A fresh copy of a character string.
fn copy_of(s: &[char]) -> (r: Vec<char>)
    ensures
        r@ == s@,
{
    let r = copy_range(s, 0, s.len());
    proof {
        assert(r@ =~= s@);
    }
    r
}

} // verus!
