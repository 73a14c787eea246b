//! Tests of the provisioning and teardown state machines and of the run
//! bookkeeping: one full expected-consistent cycle, the fixed step orders,
//! best-effort teardown, and release-before-next-acquire across iterations.

use loopfs_harness::fs_type::FsType;
use loopfs_harness::provision::{ProvisionAction, ProvisionStep, ResourceProvisioner};
use loopfs_harness::runner::TestRunner;
use loopfs_harness::teardown::{LifecycleGuard, TeardownAction, TeardownStep};
use loopfs_harness::{LEN_100_MB, LEN_1_KB};

fn chars(s: &str) -> Vec<char> {
    s.chars().collect()
}

fn string(v: &[char]) -> String {
    v.iter().collect()
}

#[test]
fn provisioning_runs_the_ordered_sequence_with_derived_arguments() {
    // Expected-consistent scenario: 100 MiB image, 1 KiB blocks, ext2.
    let mut p = ResourceProvisioner::new(LEN_100_MB, FsType::Ext2, LEN_1_KB);
    assert_eq!(p.step, ProvisionStep::Unprovisioned);

    match p.next_action() {
        Some(ProvisionAction::QueryFreeDevice) => {}
        other => panic!("expected the free-device query, got {:?}", other),
    }
    p.device_acquired(chars("/dev/loop43"));

    match p.next_action() {
        Some(ProvisionAction::CreateImage { path, size }) => {
            assert_eq!(string(&path), "./loop43.img");
            assert_eq!(size, 100 * 1024 * 1024);
        }
        other => panic!("expected the image creation, got {:?}", other),
    }
    p.step_ok();

    match p.next_action() {
        Some(ProvisionAction::CreateMountDir { path }) => {
            assert_eq!(string(&path), "/tmp/throw_away_test/loop43_tmp/loop43");
        }
        other => panic!("expected the mount-dir creation, got {:?}", other),
    }
    p.step_ok();

    match p.next_action() {
        Some(ProvisionAction::AttachDevice { device, image }) => {
            assert_eq!(string(&device), "/dev/loop43");
            assert_eq!(string(&image), "./loop43.img");
        }
        other => panic!("expected the device attachment, got {:?}", other),
    }
    p.step_ok();

    match p.next_action() {
        Some(ProvisionAction::WriteLabel { device }) => {
            assert_eq!(string(&device), "/dev/loop43");
        }
        other => panic!("expected the label write, got {:?}", other),
    }
    p.step_ok();

    match p.next_action() {
        // One primary partition spanning the full image: megabytes 0 to 100.
        Some(ProvisionAction::MakePartition { device, end_mb }) => {
            assert_eq!(string(&device), "/dev/loop43");
            assert_eq!(end_mb, 100);
        }
        other => panic!("expected the partition creation, got {:?}", other),
    }
    p.step_ok();

    match p.next_action() {
        Some(ProvisionAction::FormatPartition { utility, partition, block_size }) => {
            assert_eq!(string(&utility), "mkfs.ext2");
            assert_eq!(string(&partition), "/dev/loop43p1");
            assert_eq!(block_size, 1024);
        }
        other => panic!("expected the formatting step, got {:?}", other),
    }
    p.step_ok();
    assert_eq!(p.step, ProvisionStep::Formatted);
    assert!(p.next_action().is_none());

    let h = p.into_handle();
    assert_eq!(string(&h.partition_name), "/dev/loop43p1");
    assert_eq!(h.fs_type, FsType::Ext2);
}

#[test]
fn teardown_visits_every_step_in_reverse_dependency_order() {
    let mut p = ResourceProvisioner::new(LEN_100_MB, FsType::Ext2, LEN_1_KB);
    p.device_acquired(chars("/dev/loop7"));
    for _ in 0..6 {
        p.step_ok();
    }
    let mut g = LifecycleGuard::new(p.into_handle());

    match g.next_action() {
        Some(TeardownAction::RemovePartition { device }) => {
            assert_eq!(string(&device), "/dev/loop7");
        }
        other => panic!("expected the partition removal, got {:?}", other),
    }
    g.step_done(true);

    match g.next_action() {
        Some(TeardownAction::DetachDevice { device }) => {
            assert_eq!(string(&device), "/dev/loop7");
        }
        other => panic!("expected the device detach, got {:?}", other),
    }
    g.step_done(true);

    match g.next_action() {
        Some(TeardownAction::DeleteImage { path }) => {
            assert_eq!(string(&path), "./loop7.img");
        }
        other => panic!("expected the image deletion, got {:?}", other),
    }
    g.step_done(true);

    match g.next_action() {
        Some(TeardownAction::RemoveTmpDir { path }) => {
            assert_eq!(string(&path), "/tmp/throw_away_test/loop7_tmp");
        }
        other => panic!("expected the folder removal, got {:?}", other),
    }
    g.step_done(true);

    assert!(g.next_action().is_none());
    assert!(g.finished());
    assert!(g.clean());
    assert!(g.failures.is_empty());
}

#[test]
fn teardown_attempts_every_step_even_after_failures() {
    let mut p = ResourceProvisioner::new(LEN_100_MB, FsType::Ext2, LEN_1_KB);
    p.device_acquired(chars("/dev/loop7"));
    for _ in 0..6 {
        p.step_ok();
    }
    let mut g = LifecycleGuard::new(p.into_handle());

    // The partition removal fails; teardown must still detach the device and
    // delete the files rather than leak the loop device.
    g.step_done(false);
    assert!(matches!(
        g.next_action(),
        Some(TeardownAction::DetachDevice { .. })
    ));
    g.step_done(true);
    assert!(matches!(g.next_action(), Some(TeardownAction::DeleteImage { .. })));
    g.step_done(false);
    assert!(matches!(
        g.next_action(),
        Some(TeardownAction::RemoveTmpDir { .. })
    ));
    g.step_done(true);

    assert!(g.finished());
    assert!(!g.clean());
    assert_eq!(
        g.failures,
        vec![TeardownStep::RemovePartition, TeardownStep::DeleteImage]
    );
}

#[test]
fn run_releases_each_device_before_the_next_acquire() {
    let mut r = TestRunner::new(3);
    let mut rounds = 0;
    while r.should_run() {
        // `should_run` is true only with no device held: strict
        // release-before-next-acquire.
        assert!(r.live.is_none());
        r.acquired(chars("/dev/loop43"));
        assert!(r.live.is_some());
        r.released();
        assert!(r.live.is_none());
        rounds += 1;
    }
    assert_eq!(rounds, 3);
    assert_eq!(r.completed, 3);
    assert!(r.finished());
}

#[test]
fn aborted_run_stops_and_reports_what_it_held() {
    let mut r = TestRunner::new(100);
    r.acquired(chars("/dev/loop0"));
    r.released();
    r.acquired(chars("/dev/loop0"));
    // A fatal failure inside the second iteration: the run stops; the held
    // device stays recorded, which is exactly the leak the abort reports.
    r.abort();
    assert!(!r.should_run());
    assert!(!r.finished());
    assert_eq!(r.completed, 1);
    assert!(r.live.is_some());
}
