//! The ordered provisioning sequence for one loop-backed partition, as an
//! explicit state machine.
//!
//! The provisioner decides; the caller acts. `next_action` names the one
//! action that must be performed next, with every argument already derived;
//! the caller performs it (allocating the device, running the partitioning and
//! formatting utilities) and reports back with `device_acquired` or `step_ok`.
//! Provisioning is fail-fast: a failed action is not reported back, the caller
//! abandons the provisioner and aborts the run. No step is ever skipped or
//! reordered, and the finished handle can only be taken once the formatting
//! step has succeeded.

use vstd::prelude::*;

use crate::fs_type::{spec_mkfs_utility, mkfs_utility, FsType};
use crate::handle::{
    img_file_path,
    img_size_mb,
    mount_point_path,
    partition_path,
    spec_img_size_mb,
    strip_dev_prefix,
    TestLoopPartition,
};
use crate::text::copy_range;

verus! {

/// How far the ordered provisioning sequence has come.
#[derive(Clone, Copy, Debug, PartialEq, Eq, Structural)]
pub enum ProvisionStep {
    /// Nothing acquired yet.
    Unprovisioned,
    /// A free loop device name has been obtained.
    DeviceAcquired,
    /// The backing image file exists at its full byte length.
    ImageCreated,
    /// The nested mount-point directory exists.
    MountPointCreated,
    /// The backing file is attached to the loop device.
    Attached,
    /// The device carries a legacy MBR partition-table label.
    LabelWritten,
    /// The single primary partition exists.
    PartitionCreated,
    /// The partition is formatted; provisioning is complete.
    Formatted,
}

/// The position of a step in the ordered sequence.
pub open spec fn step_index(s: ProvisionStep) -> int {
    match s {
        ProvisionStep::Unprovisioned => 0,
        ProvisionStep::DeviceAcquired => 1,
        ProvisionStep::ImageCreated => 2,
        ProvisionStep::MountPointCreated => 3,
        ProvisionStep::Attached => 4,
        ProvisionStep::LabelWritten => 5,
        ProvisionStep::PartitionCreated => 6,
        ProvisionStep::Formatted => 7,
    }
}

/// The step that follows `s` in the ordered sequence.
pub open spec fn next_step(s: ProvisionStep) -> ProvisionStep {
    match s {
        ProvisionStep::Unprovisioned => ProvisionStep::DeviceAcquired,
        ProvisionStep::DeviceAcquired => ProvisionStep::ImageCreated,
        ProvisionStep::ImageCreated => ProvisionStep::MountPointCreated,
        ProvisionStep::MountPointCreated => ProvisionStep::Attached,
        ProvisionStep::Attached => ProvisionStep::LabelWritten,
        ProvisionStep::LabelWritten => ProvisionStep::PartitionCreated,
        ProvisionStep::PartitionCreated => ProvisionStep::Formatted,
        ProvisionStep::Formatted => ProvisionStep::Formatted,
    }
}

/// One action the caller must perform to advance provisioning. Every textual
/// argument is fully derived; the caller only executes.
#[derive(Debug)]
pub enum ProvisionAction {
    /// Ask the host for the next free loop device path.
    QueryFreeDevice,
    /// Create the backing file at exactly `size` bytes (sparse is acceptable).
    CreateImage { path: Vec<char>, size: u64 },
    /// Create the nested mount-point directory, with its parents.
    CreateMountDir { path: Vec<char> },
    /// Attach the backing image to the loop device.
    AttachDevice { device: Vec<char>, image: Vec<char> },
    /// Write a legacy MBR partition-table label to the device.
    WriteLabel { device: Vec<char> },
    /// Create one primary partition spanning megabytes 0 to `end_mb`.
    MakePartition { device: Vec<char>, end_mb: u64 },
    /// Run the named formatting utility against the partition device with the
    /// given block size, discarding the utility's own output streams entirely
    /// (not buffering or inspecting them), which the defect under test needs.
    FormatPartition { utility: Vec<char>, partition: Vec<char>, block_size: u64 },
}

/// The provisioning state machine for one partition.
#[derive(Debug)]
pub struct ResourceProvisioner {
    /// The byte length the backing image must have.
    pub img_file_size: u64,
    /// The filesystem type to format with.
    pub fs_type: FsType,
    /// The block size to format with.
    pub block_size: u64,
    /// How far the sequence has come.
    pub step: ProvisionStep,
    /// The acquired loop device path; empty until a device is acquired.
    pub device: Vec<char>,
}

impl ResourceProvisioner {
    /// Starts a provisioning sequence for the given image size, filesystem
    /// type and block size.
    pub fn new(img_file_size: u64, fs_type: FsType, block_size: u64) -> (r: Self)
        ensures
            r.step == ProvisionStep::Unprovisioned,
            r.img_file_size == img_file_size,
            r.fs_type == fs_type,
            r.block_size == block_size,
    {
        ResourceProvisioner {
            img_file_size,
            fs_type,
            block_size,
            step: ProvisionStep::Unprovisioned,
            device: Vec::new(),
        }
    }

    /// The action the caller must perform next, or `None` once the sequence is
    /// complete. Each action's arguments are the exact derivations from the
    /// acquired device path and the requested parameters.
    pub fn next_action(&self) -> (r: Option<ProvisionAction>)
        ensures
            match r {
                None => self.step == ProvisionStep::Formatted,
                Some(a) => self.step != ProvisionStep::Formatted && match self.step {
                    ProvisionStep::Unprovisioned => a is QueryFreeDevice,
                    ProvisionStep::DeviceAcquired => a matches ProvisionAction::CreateImage {
                        path,
                        size,
                    } && path@ == img_file_path(self.device@) && size == self.img_file_size,
                    ProvisionStep::ImageCreated => a matches ProvisionAction::CreateMountDir {
                        path,
                    } && path@ == mount_point_path(self.device@),
                    ProvisionStep::MountPointCreated => a matches ProvisionAction::AttachDevice {
                        device,
                        image,
                    } && device@ == self.device@ && image@ == img_file_path(self.device@),
                    ProvisionStep::Attached => a matches ProvisionAction::WriteLabel { device }
                        && device@ == self.device@,
                    ProvisionStep::LabelWritten => a matches ProvisionAction::MakePartition {
                        device,
                        end_mb,
                    } && device@ == self.device@ && end_mb == spec_img_size_mb(self.img_file_size),
                    ProvisionStep::PartitionCreated => a matches ProvisionAction::FormatPartition {
                        utility,
                        partition,
                        block_size,
                    } && utility@ == spec_mkfs_utility(self.fs_type) && partition@ == partition_path(
                        self.device@,
                    ) && block_size == self.block_size,
                    ProvisionStep::Formatted => false,
                },
            },
    {
        match self.step {
            ProvisionStep::Unprovisioned => Some(ProvisionAction::QueryFreeDevice),
            ProvisionStep::DeviceAcquired => Some(
                ProvisionAction::CreateImage {
                    path: self.img_file(),
                    size: self.img_file_size,
                },
            ),
            ProvisionStep::ImageCreated => Some(
                ProvisionAction::CreateMountDir { path: self.mount_point() },
            ),
            ProvisionStep::MountPointCreated => Some(
                ProvisionAction::AttachDevice {
                    device: self.device_path(),
                    image: self.img_file(),
                },
            ),
            ProvisionStep::Attached => Some(
                ProvisionAction::WriteLabel { device: self.device_path() },
            ),
            ProvisionStep::LabelWritten => Some(
                ProvisionAction::MakePartition {
                    device: self.device_path(),
                    end_mb: img_size_mb(self.img_file_size),
                },
            ),
            ProvisionStep::PartitionCreated => Some(
                ProvisionAction::FormatPartition {
                    utility: mkfs_utility(&self.fs_type),
                    partition: self.partition(),
                    block_size: self.block_size,
                },
            ),
            ProvisionStep::Formatted => None,
        }
    }

    /// Records the loop device path the host handed out, after the free-device
    /// query succeeded.
    pub fn device_acquired(&mut self, device: Vec<char>)
        requires
            old(self).step == ProvisionStep::Unprovisioned,
        ensures
            final(self).step == ProvisionStep::DeviceAcquired,
            final(self).device@ == device@,
            final(self).img_file_size == old(self).img_file_size,
            final(self).fs_type == old(self).fs_type,
            final(self).block_size == old(self).block_size,
    {
        self.device = device;
        self.step = ProvisionStep::DeviceAcquired;
    }

    /// Records that the pending action succeeded, advancing to the next step.
    pub fn step_ok(&mut self)
        requires
            step_index(old(self).step) >= 1,
            old(self).step != ProvisionStep::Formatted,
        ensures
            final(self).step == next_step(old(self).step),
            final(self).device@ == old(self).device@,
            final(self).img_file_size == old(self).img_file_size,
            final(self).fs_type == old(self).fs_type,
            final(self).block_size == old(self).block_size,
    {
        self.step = match self.step {
            ProvisionStep::Unprovisioned => ProvisionStep::DeviceAcquired,
            ProvisionStep::DeviceAcquired => ProvisionStep::ImageCreated,
            ProvisionStep::ImageCreated => ProvisionStep::MountPointCreated,
            ProvisionStep::MountPointCreated => ProvisionStep::Attached,
            ProvisionStep::Attached => ProvisionStep::LabelWritten,
            ProvisionStep::LabelWritten => ProvisionStep::PartitionCreated,
            ProvisionStep::PartitionCreated => ProvisionStep::Formatted,
            ProvisionStep::Formatted => ProvisionStep::Formatted,
        };
    }

    /// Hands out the finished handle, once the whole sequence has succeeded.
    /// Every derived name in the handle matches its derivation from the
    /// acquired loop device.
    pub fn into_handle(self) -> (r: TestLoopPartition)
        requires
            self.step == ProvisionStep::Formatted,
        ensures
            r.wf(),
            r.loop_device_name@ == self.device@,
            r.img_file_size == self.img_file_size,
            r.fs_type == self.fs_type,
            r.block_size == self.block_size,
    {
        TestLoopPartition::new(self.device, self.img_file_size, self.fs_type, self.block_size)
    }

    /// A fresh copy of the acquired device path.
    fn device_path(&self) -> (r: Vec<char>)
        ensures
            r@ == self.device@,
    {
        let r = copy_range(self.device.as_slice(), 0, self.device.len());
        proof {
            assert(r@ =~= self.device@);
        }
        r
    }

    /// The backing image path derived from the acquired device.
    fn img_file(&self) -> (r: Vec<char>)
        ensures
            r@ == img_file_path(self.device@),
    {
        let short = strip_dev_prefix(self.device.as_slice());
        let mut v = Vec::<char>::new();
        v.extend_from_slice(['.', '/'].as_slice());
        v.extend_from_slice(short.as_slice());
        v.extend_from_slice(['.', 'i', 'm', 'g'].as_slice());
        proof {
            reveal_strlit("./");
            reveal_strlit(".img");
            assert(v@ =~= img_file_path(self.device@));
        }
        v
    }

    /// The mount-point path derived from the acquired device.
    fn mount_point(&self) -> (r: Vec<char>)
        ensures
            r@ == mount_point_path(self.device@),
    {
        let short = strip_dev_prefix(self.device.as_slice());
        let mut v = Vec::<char>::new();
        v.extend_from_slice(
            [
                '/',
                't',
                'm',
                'p',
                '/',
                't',
                'h',
                'r',
                'o',
                'w',
                '_',
                'a',
                'w',
                'a',
                'y',
                '_',
                't',
                'e',
                's',
                't',
                '/',
            ].as_slice(),
        );
        v.extend_from_slice(short.as_slice());
        v.extend_from_slice(['_', 't', 'm', 'p', '/'].as_slice());
        v.extend_from_slice(short.as_slice());
        proof {
            reveal_strlit("/tmp/throw_away_test/");
            reveal_strlit("_tmp");
            reveal_strlit("/");
            assert(v@ =~= mount_point_path(self.device@));
        }
        v
    }

    /// The partition device path derived from the acquired device.
    fn partition(&self) -> (r: Vec<char>)
        ensures
            r@ == partition_path(self.device@),
    {
        let mut v = self.device_path();
        v.extend_from_slice(['p', '1'].as_slice());
        proof {
            reveal_strlit("p1");
            assert(v@ =~= partition_path(self.device@));
        }
        v
    }
}

} // verus!
