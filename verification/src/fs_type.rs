//! The filesystem-type vocabulary of the harness.
//!
//! A detection result is either one of the filesystem types the harness knows
//! by name, the `Unknown` sentinel (no filesystem detected, reported as an
//! empty label), or `Unrecognised` (a non-empty label the harness has no name
//! for).

use vstd::prelude::*;

use crate::text::chars_eq;

verus! {

/// A filesystem type as either detection mechanism reports it.
#[derive(Clone, Copy, Debug, PartialEq, Eq, Structural)]
pub enum FsType {
    Btrfs,
    Ext2,
    Ext3,
    Ext4,
    /// A logical-volume member, reported under the label `lvm2_member`.
    Lvm,
    Xfs,
    Zfs,
    Ntfs,
    /// Any FAT-based filesystem.
    Vfat,
    /// A non-empty label that names no filesystem type known to the harness.
    Unrecognised,
    /// No filesystem detected; reported as an empty label.
    Unknown,
}

/// The label under which a filesystem type is reported, and the suffix of the
/// `mkfs.<type>` formatting utility's name.
pub open spec fn spec_fs_name(t: FsType) -> Seq<char> {
    match t {
        FsType::Btrfs => "btrfs"@,
        FsType::Ext2 => "ext2"@,
        FsType::Ext3 => "ext3"@,
        FsType::Ext4 => "ext4"@,
        FsType::Lvm => "lvm"@,
        FsType::Xfs => "xfs"@,
        FsType::Zfs => "zfs"@,
        FsType::Ntfs => "ntfs"@,
        FsType::Vfat => "vfat"@,
        FsType::Unrecognised => "unrecognised"@,
        FsType::Unknown => "unknown"@,
    }
}

/// The filesystem type a textual label denotes: each known name maps to its
/// type, the `lvm2_member` label to `Lvm`, the empty label to `Unknown`, and
/// every other label to `Unrecognised`.
pub open spec fn spec_parse_fs_type(s: Seq<char>) -> FsType {
    if s == "btrfs"@ {
        FsType::Btrfs
    } else if s == "ext2"@ {
        FsType::Ext2
    } else if s == "ext3"@ {
        FsType::Ext3
    } else if s == "ext4"@ {
        FsType::Ext4
    } else if s == "lvm2_member"@ {
        FsType::Lvm
    } else if s == "xfs"@ {
        FsType::Xfs
    } else if s == "zfs"@ {
        FsType::Zfs
    } else if s == "ntfs"@ {
        FsType::Ntfs
    } else if s == "vfat"@ {
        FsType::Vfat
    } else if s.len() == 0 {
        FsType::Unknown
    } else {
        FsType::Unrecognised
    }
}

/// Parses a textual filesystem-type label.
pub fn parse_fs_type(s: &[char]) -> (r: FsType)
    ensures
        r == spec_parse_fs_type(s@),
{
    let lit_btrfs = ['b', 't', 'r', 'f', 's'];
    let lit_ext2 = ['e', 'x', 't', '2'];
    let lit_ext3 = ['e', 'x', 't', '3'];
    let lit_ext4 = ['e', 'x', 't', '4'];
    let lit_lvm = ['l', 'v', 'm', '2', '_', 'm', 'e', 'm', 'b', 'e', 'r'];
    let lit_xfs = ['x', 'f', 's'];
    let lit_zfs = ['z', 'f', 's'];
    let lit_ntfs = ['n', 't', 'f', 's'];
    let lit_vfat = ['v', 'f', 'a', 't'];
    proof {
        reveal_strlit("btrfs");
        reveal_strlit("ext2");
        reveal_strlit("ext3");
        reveal_strlit("ext4");
        reveal_strlit("lvm2_member");
        reveal_strlit("xfs");
        reveal_strlit("zfs");
        reveal_strlit("ntfs");
        reveal_strlit("vfat");
        assert(lit_btrfs@ =~= "btrfs"@);
        assert(lit_ext2@ =~= "ext2"@);
        assert(lit_ext3@ =~= "ext3"@);
        assert(lit_ext4@ =~= "ext4"@);
        assert(lit_lvm@ =~= "lvm2_member"@);
        assert(lit_xfs@ =~= "xfs"@);
        assert(lit_zfs@ =~= "zfs"@);
        assert(lit_ntfs@ =~= "ntfs"@);
        assert(lit_vfat@ =~= "vfat"@);
    }
    if chars_eq(s, lit_btrfs.as_slice()) {
        FsType::Btrfs
    } else if chars_eq(s, lit_ext2.as_slice()) {
        FsType::Ext2
    } else if chars_eq(s, lit_ext3.as_slice()) {
        FsType::Ext3
    } else if chars_eq(s, lit_ext4.as_slice()) {
        FsType::Ext4
    } else if chars_eq(s, lit_lvm.as_slice()) {
        FsType::Lvm
    } else if chars_eq(s, lit_xfs.as_slice()) {
        FsType::Xfs
    } else if chars_eq(s, lit_zfs.as_slice()) {
        FsType::Zfs
    } else if chars_eq(s, lit_ntfs.as_slice()) {
        FsType::Ntfs
    } else if chars_eq(s, lit_vfat.as_slice()) {
        FsType::Vfat
    } else if s.len() == 0 {
        FsType::Unknown
    } else {
        FsType::Unrecognised
    }
}

/// The label under which `t` is reported.
pub fn fs_name(t: &FsType) -> (r: Vec<char>)
    ensures
        r@ == spec_fs_name(*t),
{
    let mut v: Vec<char> = Vec::new();
    match t {
        FsType::Btrfs => {
            v.extend_from_slice(['b', 't', 'r', 'f', 's'].as_slice());
            proof {
                reveal_strlit("btrfs");
                assert(v@ =~= "btrfs"@);
            }
        },
        FsType::Ext2 => {
            v.extend_from_slice(['e', 'x', 't', '2'].as_slice());
            proof {
                reveal_strlit("ext2");
                assert(v@ =~= "ext2"@);
            }
        },
        FsType::Ext3 => {
            v.extend_from_slice(['e', 'x', 't', '3'].as_slice());
            proof {
                reveal_strlit("ext3");
                assert(v@ =~= "ext3"@);
            }
        },
        FsType::Ext4 => {
            v.extend_from_slice(['e', 'x', 't', '4'].as_slice());
            proof {
                reveal_strlit("ext4");
                assert(v@ =~= "ext4"@);
            }
        },
        FsType::Lvm => {
            v.extend_from_slice(['l', 'v', 'm'].as_slice());
            proof {
                reveal_strlit("lvm");
                assert(v@ =~= "lvm"@);
            }
        },
        FsType::Xfs => {
            v.extend_from_slice(['x', 'f', 's'].as_slice());
            proof {
                reveal_strlit("xfs");
                assert(v@ =~= "xfs"@);
            }
        },
        FsType::Zfs => {
            v.extend_from_slice(['z', 'f', 's'].as_slice());
            proof {
                reveal_strlit("zfs");
                assert(v@ =~= "zfs"@);
            }
        },
        FsType::Ntfs => {
            v.extend_from_slice(['n', 't', 'f', 's'].as_slice());
            proof {
                reveal_strlit("ntfs");
                assert(v@ =~= "ntfs"@);
            }
        },
        FsType::Vfat => {
            v.extend_from_slice(['v', 'f', 'a', 't'].as_slice());
            proof {
                reveal_strlit("vfat");
                assert(v@ =~= "vfat"@);
            }
        },
        FsType::Unrecognised => {
            v.extend_from_slice(
                ['u', 'n', 'r', 'e', 'c', 'o', 'g', 'n', 'i', 's', 'e', 'd'].as_slice(),
            );
            proof {
                reveal_strlit("unrecognised");
                assert(v@ =~= "unrecognised"@);
            }
        },
        FsType::Unknown => {
            v.extend_from_slice(['u', 'n', 'k', 'n', 'o', 'w', 'n'].as_slice());
            proof {
                reveal_strlit("unknown");
                assert(v@ =~= "unknown"@);
            }
        },
    }
    v
}

/// Round trip: the label under which a filesystem type is reported parses
/// back to that type. This holds for every type that names a filesystem;
/// it cannot hold for `Lvm` (reported `lvm`, parsed from `lvm2_member`) nor
/// for the two sentinels, whose labels are not parse images of themselves.
pub proof fn lemma_fs_name_parses_back(t: FsType)
    requires
        !(t is Lvm),
        !(t is Unrecognised),
        !(t is Unknown),
    ensures
        spec_parse_fs_type(spec_fs_name(t)) == t,
{
    reveal_strlit("btrfs");
    reveal_strlit("ext2");
    reveal_strlit("ext3");
    reveal_strlit("ext4");
    reveal_strlit("lvm2_member");
    reveal_strlit("xfs");
    reveal_strlit("zfs");
    reveal_strlit("ntfs");
    reveal_strlit("vfat");
    assert("btrfs"@.len() == 5);
    assert("ext2"@.len() == 4);
    assert("ext3"@.len() == 4);
    assert("ext4"@.len() == 4);
    assert("lvm2_member"@.len() == 11);
    assert("xfs"@.len() == 3);
    assert("zfs"@.len() == 3);
    assert("ntfs"@.len() == 4);
    assert("vfat"@.len() == 4);
    assert("ext2"@[3] == '2' && "ext3"@[3] == '3' && "ext4"@[3] == '4');
    assert("ext2"@[0] == 'e' && "ntfs"@[0] == 'n' && "vfat"@[0] == 'v');
    assert("xfs"@[0] == 'x' && "zfs"@[0] == 'z');
}

/// The name of the filesystem-creation utility for `t`: `mkfs.` followed by
/// the type's label.
pub open spec fn spec_mkfs_utility(t: FsType) -> Seq<char> {
    "mkfs."@ + spec_fs_name(t)
}

/// Builds the name of the filesystem-creation utility for `t`.
pub fn mkfs_utility(t: &FsType) -> (r: Vec<char>)
    ensures
        r@ == spec_mkfs_utility(*t),
{
    let mut v: Vec<char> = Vec::new();
    v.extend_from_slice(['m', 'k', 'f', 's', '.'].as_slice());
    proof {
        reveal_strlit("mkfs.");
        assert(v@ =~= "mkfs."@);
    }
    let name = fs_name(t);
    v.extend_from_slice(name.as_slice());
    proof {
        assert(v@ =~= "mkfs."@ + spec_fs_name(*t));
    }
    v
}

} // verus!
