//! The handle to one provisioned, formatted loop-backed partition, and the
//! derivation of every resource name it owns.
//!
//! All names are derived from the loop device's path alone: the partition
//! device is the loop device plus the single-partition suffix, and the backing
//! image, temporary folder and mount point are named after the device's short
//! name. The handle records those derived names together with the formatting
//! parameters, and is read-only after provisioning.

use vstd::prelude::*;

use crate::fs_type::FsType;
use crate::text::copy_range;

verus! {

/// The short name of a loop device: its path with the leading device-directory
/// prefix removed (`/dev/loop7` becomes `loop7`).
pub open spec fn short_name(dev: Seq<char>) -> Seq<char> {
    if dev.len() >= 5 && dev.take(5) == "/dev/"@ {
        dev.skip(5)
    } else {
        dev
    }
}

/// The path of the backing image file: `./<short name>.img`, in the current
/// working directory.
pub open spec fn img_file_path(dev: Seq<char>) -> Seq<char> {
    "./"@ + short_name(dev) + ".img"@
}

/// The process-scoped temporary folder for a device:
/// `/tmp/throw_away_test/<short name>_tmp`.
pub open spec fn tmp_folder_path(dev: Seq<char>) -> Seq<char> {
    "/tmp/throw_away_test/"@ + short_name(dev) + "_tmp"@
}

/// The mount-point path nested under the temporary folder:
/// `<tmp folder>/<short name>`. Allocated but never actually mounted on.
pub open spec fn mount_point_path(dev: Seq<char>) -> Seq<char> {
    tmp_folder_path(dev) + "/"@ + short_name(dev)
}

/// The partition device path: the loop device path plus the single-partition
/// suffix `p1`.
pub open spec fn partition_path(dev: Seq<char>) -> Seq<char> {
    dev + "p1"@
}

/// The image size expressed in whole megabytes, by integer truncation.
/// An image size that is not a whole-megabyte multiple is silently
/// under-represented; that is an accepted edge case, not an error.
pub open spec fn spec_img_size_mb(img_file_size: u64) -> u64 {
    (img_file_size / 1024 / 1024) as u64
}

/// Computes the image size in whole megabytes, by integer truncation.
pub fn img_size_mb(img_file_size: u64) -> (r: u64)
    ensures
        r == spec_img_size_mb(img_file_size),
{
    img_file_size / 1024 / 1024
}

/// Strips the device-directory prefix from a loop device path.
pub fn strip_dev_prefix(dev: &[char]) -> (r: Vec<char>)
    ensures
        r@ == short_name(dev@),
{
    proof {
        reveal_strlit("/dev/");
    }
    if dev.len() >= 5 && dev[0] == '/' && dev[1] == 'd' && dev[2] == 'e' && dev[3] == 'v'
        && dev[4] == '/' {
        proof {
            assert(dev@.take(5) =~= "/dev/"@);
        }
        copy_range(dev, 5, dev.len())
    } else {
        proof {
            if dev@.len() >= 5 {
                assert(dev@.take(5).len() == 5);
                if dev@.take(5) == "/dev/"@ {
                    assert(dev@[0] == dev@.take(5)[0]);
                    assert(dev@[1] == dev@.take(5)[1]);
                    assert(dev@[2] == dev@.take(5)[2]);
                    assert(dev@[3] == dev@.take(5)[3]);
                    assert(dev@[4] == dev@.take(5)[4]);
                }
            }
        }
        let r = copy_range(dev, 0, dev.len());
        proof {
            assert(r@ =~= dev@);
        }
        r
    }
}

/// The handle to one provisioned loop-backed partition: the loop device it
/// owns, the names derived from it, and the formatting parameters.
#[derive(Debug)]
pub struct TestLoopPartition {
    /// The partition device path, `<loop device>p1`.
    pub partition_name: Vec<char>,
    /// The allocated (never used) mount-point path.
    pub loop_device_mount_point: Vec<char>,
    /// The path of the backing image file.
    pub loop_device_img_file: Vec<char>,
    /// The block size the partition was formatted with.
    pub block_size: u64,
    /// The temporary folder owned by this handle.
    pub tmp_folder: Vec<char>,
    /// The loop device path this handle owns.
    pub loop_device_name: Vec<char>,
    /// The filesystem type the partition was formatted with.
    pub fs_type: FsType,
    /// The byte length of the backing image.
    pub img_file_size: u64,
}

impl TestLoopPartition {
    /// Every derived name matches its derivation from the loop device path.
    pub open spec fn wf(self) -> bool {
        &&& self.partition_name@ == partition_path(self.loop_device_name@)
        &&& self.loop_device_img_file@ == img_file_path(self.loop_device_name@)
        &&& self.tmp_folder@ == tmp_folder_path(self.loop_device_name@)
        &&& self.loop_device_mount_point@ == mount_point_path(self.loop_device_name@)
    }

    /// Assembles the handle for a loop device, deriving every resource name
    /// from the device path and recording the formatting parameters.
    pub fn new(loop_device: Vec<char>, img_file_size: u64, fs_type: FsType, block_size: u64) -> (r:
        Self)
        ensures
            r.wf(),
            r.loop_device_name@ == loop_device@,
            r.img_file_size == img_file_size,
            r.fs_type == fs_type,
            r.block_size == block_size,
    {
        let short = strip_dev_prefix(loop_device.as_slice());

        let mut partition_name = copy_range(loop_device.as_slice(), 0, loop_device.len());
        partition_name.extend_from_slice(['p', '1'].as_slice());
        proof {
            reveal_strlit("p1");
            assert(partition_name@ =~= partition_path(loop_device@));
        }

        let mut img_file = Vec::<char>::new();
        img_file.extend_from_slice(['.', '/'].as_slice());
        img_file.extend_from_slice(short.as_slice());
        img_file.extend_from_slice(['.', 'i', 'm', 'g'].as_slice());
        proof {
            reveal_strlit("./");
            reveal_strlit(".img");
            assert(img_file@ =~= img_file_path(loop_device@));
        }

        let mut tmp_folder = Vec::<char>::new();
        tmp_folder.extend_from_slice(
            [
                '/',
                't',
                'm',
                'p',
                '/',
                't',
                'h',
                'r',
                'o',
                'w',
                '_',
                'a',
                'w',
                'a',
                'y',
                '_',
                't',
                'e',
                's',
                't',
                '/',
            ].as_slice(),
        );
        tmp_folder.extend_from_slice(short.as_slice());
        tmp_folder.extend_from_slice(['_', 't', 'm', 'p'].as_slice());
        proof {
            reveal_strlit("/tmp/throw_away_test/");
            reveal_strlit("_tmp");
            assert(tmp_folder@ =~= tmp_folder_path(loop_device@));
        }

        let mut mount_point = copy_range(tmp_folder.as_slice(), 0, tmp_folder.len());
        mount_point.push('/');
        mount_point.extend_from_slice(short.as_slice());
        proof {
            reveal_strlit("/");
            assert(mount_point@ =~= mount_point_path(loop_device@));
        }

        TestLoopPartition {
            partition_name,
            loop_device_mount_point: mount_point,
            loop_device_img_file: img_file,
            block_size,
            tmp_folder,
            loop_device_name: loop_device,
            fs_type,
            img_file_size,
        }
    }
}

} // verus!
