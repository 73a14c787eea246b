//! Core logic of a differential test harness for loop-backed filesystem
//! detection.
//!
//! The harness provisions an ephemeral loop device, formats a single primary
//! partition on it, and compares two independent mechanisms for detecting the
//! partition's filesystem type: a programmatic device-metadata lookup and a
//! textual metadata utility. A disagreement between the two is the defect the
//! harness exists to surface.
//!
//! This library holds everything the harness decides or computes: the
//! derivation of every resource name a provisioned partition owns, the ordered
//! provisioning and teardown state machines, the parsing of the textual
//! utility's output, the comparison of the two detection results, and the
//! iteration bookkeeping of a whole run. Subprocess execution and device I/O
//! stay with the caller, which performs each prescribed action and hands the
//! captured output back as plain character strings.

use vstd::prelude::*;

pub mod detect;
pub mod fs_type;
pub mod handle;
pub mod host;
pub mod provision;
pub mod runner;
pub mod teardown;
pub mod text;

verus! {

/// One kibibyte: the block size the harness formats with.
pub const LEN_1_KB: u64 = 1 * 1024;

/// One hundred mebibytes: the backing-image size the harness provisions.
pub const LEN_100_MB: u64 = 100 * 1024 * LEN_1_KB;

} // verus!
