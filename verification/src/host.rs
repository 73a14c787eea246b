//! A model of the host state the harness touches, and the laws that a
//! provision-then-teardown cycle restores it.
//!
//! The host's loop-device table is global mutable state with no in-process
//! ownership tracking; the model captures exactly the pieces one cycle
//! touches: the attached loop devices, the partition entries, the backing
//! image files and the temporary folders, each named as the handle derives
//! them. `provision_effect` and `teardown_effect` are the intended net effect
//! of a fully successful provisioning sequence and a fully successful teardown
//! of the same device.

use vstd::prelude::*;

use crate::handle::{img_file_path, partition_path, tmp_folder_path};

verus! {

/// The pieces of host state one harness cycle touches. The sets hold the
/// resource names, exactly as the handle derives them from the loop device.
#[verifier::ext_equal]
pub struct HostModel {
    /// The loop devices currently attached to a backing file.
    pub attached: Set<Seq<char>>,
    /// The partition device entries currently present.
    pub partitions: Set<Seq<char>>,
    /// The backing image files currently present.
    pub files: Set<Seq<char>>,
    /// The temporary folders currently present.
    pub dirs: Set<Seq<char>>,
}

impl HostModel {
    /// No resource a cycle on loop device `dev` would create is present yet.
    pub open spec fn fresh_for(self, dev: Seq<char>) -> bool {
        &&& !self.attached.contains(dev)
        &&& !self.partitions.contains(partition_path(dev))
        &&& !self.files.contains(img_file_path(dev))
        &&& !self.dirs.contains(tmp_folder_path(dev))
    }
}

/// The net effect on the host of a fully successful provisioning sequence on
/// loop device `dev`: the device is attached, its partition entry, backing
/// image and temporary folder exist.
pub open spec fn provision_effect(m: HostModel, dev: Seq<char>) -> HostModel {
    HostModel {
        attached: m.attached.insert(dev),
        partitions: m.partitions.insert(partition_path(dev)),
        files: m.files.insert(img_file_path(dev)),
        dirs: m.dirs.insert(tmp_folder_path(dev)),
    }
}

/// The net effect on the host of a fully successful teardown of the handle on
/// loop device `dev`: every resource the cycle created is released.
pub open spec fn teardown_effect(m: HostModel, dev: Seq<char>) -> HostModel {
    HostModel {
        attached: m.attached.remove(dev),
        partitions: m.partitions.remove(partition_path(dev)),
        files: m.files.remove(img_file_path(dev)),
        dirs: m.dirs.remove(tmp_folder_path(dev)),
    }
}

/// One full cycle: provision, then tear down, the same loop device.
pub open spec fn cycle_effect(m: HostModel, dev: Seq<char>) -> HostModel {
    teardown_effect(provision_effect(m, dev), dev)
}

/// The host state after a run of sequential cycles, one per device in `devs`,
/// each fully provisioned and fully torn down before the next begins.
pub open spec fn run_effect(m: HostModel, devs: Seq<Seq<char>>) -> HostModel
    decreases devs.len(),
{
    if devs.len() == 0 {
        m
    } else {
        run_effect(cycle_effect(m, devs[0]), devs.skip(1))
    }
}

/// On the success path, a provision-then-teardown cycle on a device whose
/// resources were not present beforehand leaves the host's loop-device table
/// and file tree exactly as they were: no leaks, whatever image size and block
/// size the cycle used — neither enters the effect on the host.
pub proof fn lemma_cycle_restores_host(m: HostModel, dev: Seq<char>)
    requires
        m.fresh_for(dev),
    ensures
        cycle_effect(m, dev) == m,
{
    assert(cycle_effect(m, dev).attached =~= m.attached);
    assert(cycle_effect(m, dev).partitions =~= m.partitions);
    assert(cycle_effect(m, dev).files =~= m.files);
    assert(cycle_effect(m, dev).dirs =~= m.dirs);
    assert(cycle_effect(m, dev) =~= m);
}

/// After a full run of sequential cycles, each on a device whose resources
/// were absent before the run, the host state — in particular the count of
/// attached loop devices — equals what it was before the run began: every
/// cycle that reached teardown released everything it acquired.
pub proof fn lemma_run_restores_host(m: HostModel, devs: Seq<Seq<char>>)
    requires
        forall|i: int| 0 <= i < devs.len() ==> m.fresh_for(#[trigger] devs[i]),
    ensures
        run_effect(m, devs) == m,
    decreases devs.len(),
{
    if devs.len() != 0 {
        lemma_cycle_restores_host(m, devs[0]);
        assert(forall|i: int|
            0 <= i < devs.skip(1).len() ==> m.fresh_for(#[trigger] devs.skip(1)[i]));
        lemma_run_restores_host(m, devs.skip(1));
    }
}

/// Idempotence of an isolated scenario: repeating one full cycle on the same
/// device any number of times leaves no observable change on the host, so no
/// repetition can see state a previous one left behind.
pub proof fn lemma_repeated_cycle_restores_host(m: HostModel, dev: Seq<char>, n: nat)
    requires
        m.fresh_for(dev),
    ensures
        run_effect(m, Seq::new(n, |i: int| dev)) == m,
{
    let devs = Seq::new(n, |i: int| dev);
    lemma_run_restores_host(m, devs);
}

} // verus!
