//! End-to-end tests of the harness core: filesystem-type parsing, resource
//! name derivation, and the two scenarios the comparator distinguishes.

use loopfs_harness::detect::{
    accept_known, comparator_action, extract_type_value, known_type_agrees, resolve_textual,
    ComparatorAction, DetectionOutcome, FailureReason,
};
use loopfs_harness::fs_type::{fs_name, mkfs_utility, parse_fs_type, FsType};
use loopfs_harness::handle::{img_size_mb, strip_dev_prefix, TestLoopPartition};
use loopfs_harness::{LEN_100_MB, LEN_1_KB};

fn chars(s: &str) -> Vec<char> {
    s.chars().collect()
}

fn string(v: &[char]) -> String {
    v.iter().collect()
}

#[test]
fn constants_hold_their_sizes() {
    assert_eq!(LEN_1_KB, 1024);
    assert_eq!(LEN_100_MB, 100 * 1024 * 1024);
}

#[test]
fn parse_recognises_every_known_label() {
    assert_eq!(parse_fs_type(&chars("btrfs")), FsType::Btrfs);
    assert_eq!(parse_fs_type(&chars("ext2")), FsType::Ext2);
    assert_eq!(parse_fs_type(&chars("ext3")), FsType::Ext3);
    assert_eq!(parse_fs_type(&chars("ext4")), FsType::Ext4);
    assert_eq!(parse_fs_type(&chars("lvm2_member")), FsType::Lvm);
    assert_eq!(parse_fs_type(&chars("xfs")), FsType::Xfs);
    assert_eq!(parse_fs_type(&chars("zfs")), FsType::Zfs);
    assert_eq!(parse_fs_type(&chars("ntfs")), FsType::Ntfs);
    assert_eq!(parse_fs_type(&chars("vfat")), FsType::Vfat);
}

#[test]
fn parse_maps_empty_label_to_unknown_and_others_to_unrecognised() {
    assert_eq!(parse_fs_type(&chars("")), FsType::Unknown);
    assert_eq!(parse_fs_type(&chars("reiserfs")), FsType::Unrecognised);
    assert_eq!(parse_fs_type(&chars("EXT2")), FsType::Unrecognised);
    assert_eq!(parse_fs_type(&chars("ext")), FsType::Unrecognised);
}

#[test]
fn fs_names_round_trip_through_parse() {
    for t in [
        FsType::Btrfs,
        FsType::Ext2,
        FsType::Ext3,
        FsType::Ext4,
        FsType::Xfs,
        FsType::Zfs,
        FsType::Ntfs,
        FsType::Vfat,
    ] {
        assert_eq!(parse_fs_type(&fs_name(&t)), t);
    }
    // `Lvm` is reported under its own name but parsed from `lvm2_member`.
    assert_eq!(string(&fs_name(&FsType::Lvm)), "lvm");
}

#[test]
fn mkfs_utility_names_the_formatter() {
    assert_eq!(string(&mkfs_utility(&FsType::Ext2)), "mkfs.ext2");
    assert_eq!(string(&mkfs_utility(&FsType::Xfs)), "mkfs.xfs");
}

#[test]
fn short_name_strips_the_device_directory() {
    assert_eq!(string(&strip_dev_prefix(&chars("/dev/loop43"))), "loop43");
    assert_eq!(string(&strip_dev_prefix(&chars("loop43"))), "loop43");
    assert_eq!(string(&strip_dev_prefix(&chars(""))), "");
}

#[test]
fn image_size_truncates_to_whole_megabytes() {
    assert_eq!(img_size_mb(LEN_100_MB), 100);
    assert_eq!(img_size_mb(0), 0);
    // An odd size is silently under-represented, not rejected.
    assert_eq!(img_size_mb(1024 * 1024 + 1), 1);
    assert_eq!(img_size_mb(1024 * 1024 - 1), 0);
}

#[test]
fn handle_derives_every_resource_name() {
    let h = TestLoopPartition::new(chars("/dev/loop43"), LEN_100_MB, FsType::Ext2, LEN_1_KB);
    assert_eq!(string(&h.partition_name), "/dev/loop43p1");
    assert_eq!(string(&h.loop_device_img_file), "./loop43.img");
    assert_eq!(string(&h.tmp_folder), "/tmp/throw_away_test/loop43_tmp");
    assert_eq!(
        string(&h.loop_device_mount_point),
        "/tmp/throw_away_test/loop43_tmp/loop43"
    );
    assert_eq!(string(&h.loop_device_name), "/dev/loop43");
    assert_eq!(h.fs_type, FsType::Ext2);
    assert_eq!(h.block_size, 1024);
    assert_eq!(h.img_file_size, 100 * 1024 * 1024);
}

#[test]
fn extract_type_value_reads_the_second_line() {
    let out = chars("/dev/loop43p1: preamble\nID_FS_TYPE=ext2\nID_FS_USAGE=filesystem");
    let v = extract_type_value(&out).expect("second line holds an assignment");
    assert_eq!(string(&v), "ext2");
}

#[test]
fn extract_type_value_takes_what_follows_the_first_equals() {
    let out = chars("preamble\nTYPE=a=b\n");
    let v = extract_type_value(&out).expect("second line holds an assignment");
    assert_eq!(string(&v), "a=b");
    let empty_value = chars("preamble\nTYPE=\nrest");
    assert_eq!(string(&extract_type_value(&empty_value).unwrap()), "");
}

#[test]
fn extract_type_value_rejects_malformed_output() {
    // No second line at all.
    assert!(extract_type_value(&chars("only one line")).is_none());
    // A trailing newline but nothing after it.
    assert!(extract_type_value(&chars("first\n")).is_none());
    // A second line without an assignment.
    assert!(extract_type_value(&chars("first\nsecond line\nTYPE=ext2")).is_none());
    // Empty output.
    assert!(extract_type_value(&chars("")).is_none());
}

#[test]
fn comparator_consults_the_textual_utility_exactly_on_unknown() {
    assert_eq!(
        comparator_action(&FsType::Unknown),
        ComparatorAction::QueryTextual
    );
    assert_eq!(comparator_action(&FsType::Ext2), ComparatorAction::AcceptRound);
    assert_eq!(
        comparator_action(&FsType::Unrecognised),
        ComparatorAction::AcceptRound
    );
}

#[test]
fn known_programmatic_result_is_accepted_as_consistent() {
    // Scenario where the programmatic lookup already reports the formatted
    // type: the round completes with no mismatch.
    assert_eq!(
        accept_known(FsType::Ext2),
        DetectionOutcome::Consistent { fs_type: FsType::Ext2 }
    );
}

#[test]
fn known_type_agreement_check() {
    assert!(known_type_agrees(&FsType::Ext2, &FsType::Ext2));
    assert!(known_type_agrees(&FsType::Ext2, &FsType::Unknown));
    assert!(!known_type_agrees(&FsType::Ext2, &FsType::Ext3));
    assert!(!known_type_agrees(&FsType::Ext2, &FsType::Unrecognised));
}

#[test]
fn unknown_against_textual_ext2_is_the_mismatch_under_test() {
    // Defect reproduction: the programmatic lookup said Unknown, the textual
    // utility still reports ext2 on its second line.
    let out = chars("/dev/loop43p1: preamble\nID_FS_TYPE=ext2\n");
    let outcome = resolve_textual(&FsType::Ext2, FsType::Unknown, &out);
    assert_eq!(
        outcome,
        DetectionOutcome::Mismatch {
            programmatic: FsType::Unknown,
            textual: FsType::Ext2,
        }
    );
    // The mismatch is a distinct variant from any failure.
    assert!(!matches!(outcome, DetectionOutcome::Failure { .. }));
}

#[test]
fn textual_type_must_match_the_requested_type() {
    let out = chars("preamble\nID_FS_TYPE=xfs\n");
    assert_eq!(
        resolve_textual(&FsType::Ext2, FsType::Unknown, &out),
        DetectionOutcome::Failure {
            reason: FailureReason::FormatSanityMismatch {
                requested: FsType::Ext2,
                textual: FsType::Xfs,
            }
        }
    );
}

#[test]
fn malformed_textual_output_is_a_failure_not_a_mismatch() {
    let outcome = resolve_textual(&FsType::Ext2, FsType::Unknown, &chars("no newline here"));
    assert_eq!(
        outcome,
        DetectionOutcome::Failure {
            reason: FailureReason::MalformedTextualOutput
        }
    );
    assert!(!matches!(outcome, DetectionOutcome::Mismatch { .. }));
}

#[test]
fn textual_unknown_agreeing_with_programmatic_unknown_is_consistent() {
    // Both mechanisms report no filesystem: the round detects no mismatch.
    let out = chars("preamble\nID_FS_TYPE=\n");
    assert_eq!(
        resolve_textual(&FsType::Unknown, FsType::Unknown, &out),
        DetectionOutcome::Consistent { fs_type: FsType::Unknown }
    );
}
