//! The detection comparator: the decision logic that compares the programmatic
//! device-metadata lookup with the textual metadata utility.
//!
//! One comparison round works on the partition just formatted. The caller
//! first obtains the programmatic result; `comparator_action` says whether the
//! round is accepted as it stands or the textual utility must be consulted.
//! In the latter case the caller runs the utility, captures its standard
//! output, and hands the raw text to `resolve_textual`, which parses it,
//! checks the formatting step against it, and classifies the round.
//!
//! The parsing contract is deliberately narrow and format-fragile: only the
//! second output line is consulted (the first line is the utility's own
//! informational preamble), and only the value following the `=` of its
//! `TYPE` field.

use vstd::prelude::*;

use crate::fs_type::{parse_fs_type, spec_parse_fs_type, FsType};
use crate::text::{copy_range, find_char, lemma_find_char, scan_char};

verus! {

/// The result of one comparison round.
#[derive(Clone, Copy, Debug, PartialEq, Eq, Structural)]
pub enum DetectionOutcome {
    /// The round is accepted: the detection mechanisms agree as far as the
    /// round checked them.
    Consistent { fs_type: FsType },
    /// The two detection mechanisms disagree. This is the defect the harness
    /// exists to surface, distinct from any provisioning failure.
    Mismatch { programmatic: FsType, textual: FsType },
    /// The round could not be judged; a fatal failure of the round itself,
    /// distinct from a mismatch.
    Failure { reason: FailureReason },
}

/// Why a comparison round failed, as opposed to finding a mismatch.
#[derive(Clone, Copy, Debug, PartialEq, Eq, Structural)]
pub enum FailureReason {
    /// The textual utility's output held no second line or no `=` on it.
    MalformedTextualOutput,
    /// The textual utility's type disagrees with the type requested at format
    /// time: the formatting step itself cannot have succeeded.
    FormatSanityMismatch { requested: FsType, textual: FsType },
}

/// What the comparator does with a programmatic lookup result.
#[derive(Clone, Copy, Debug, PartialEq, Eq, Structural)]
pub enum ComparatorAction {
    /// The programmatic result is a known type: the round is accepted with no
    /// further check.
    AcceptRound,
    /// The programmatic result is the `Unknown` sentinel, the suspected bug
    /// surface: the textual utility must be consulted.
    QueryTextual,
}

/// Decides whether the textual utility must be consulted: exactly when the
/// programmatic lookup reported the `Unknown` sentinel.
pub fn comparator_action(programmatic: &FsType) -> (r: ComparatorAction)
    ensures
        r == ComparatorAction::QueryTextual <==> *programmatic is Unknown,
        r == ComparatorAction::AcceptRound <==> !(*programmatic is Unknown),
{
    match programmatic {
        FsType::Unknown => ComparatorAction::QueryTextual,
        _ => ComparatorAction::AcceptRound,
    }
}

/// Accepts a round whose programmatic result is a known type, recording that
/// type as the round's filesystem type.
pub fn accept_known(programmatic: FsType) -> (r: DetectionOutcome)
    requires
        !(programmatic is Unknown),
    ensures
        r == (DetectionOutcome::Consistent { fs_type: programmatic }),
{
    DetectionOutcome::Consistent { fs_type: programmatic }
}

/// Whether a known programmatic result agrees with the type requested at
/// format time: true exactly when the result, if it is a known type, equals
/// the requested type. A round whose programmatic result is known but differs
/// from the requested type passes no comparison the harness currently makes;
/// this check exposes that agreement separately.
pub fn known_type_agrees(requested: &FsType, programmatic: &FsType) -> (r: bool)
    ensures
        r <==> (!(*programmatic is Unknown) ==> *programmatic == *requested),
{
    match programmatic {
        FsType::Unknown => true,
        _ => fs_type_eq(programmatic, requested),
    }
}

/// Whether two filesystem types are the same.
pub fn fs_type_eq(a: &FsType, b: &FsType) -> (r: bool)
    ensures
        r == (*a == *b),
{
    *a == *b
}

/// The `TYPE` value of the textual utility's output: the part of the second
/// output line that follows its first `=`, if the output has a second line
/// holding an `=`.
pub open spec fn spec_type_value(out: Seq<char>) -> Option<Seq<char>> {
    match find_char(out, '\n') {
        None => None,
        Some(i) => {
            let rest = out.skip(i + 1);
            let line = match find_char(rest, '\n') {
                Some(j) => rest.take(j),
                None => rest,
            };
            match find_char(line, '=') {
                None => None,
                Some(k) => Some(line.skip(k + 1)),
            }
        },
    }
}

/// Extracts the `TYPE` value from the textual utility's captured output:
/// the part of the second line after its first `=`. Returns `None` when the
/// output has no second line or the second line holds no `=`.
pub fn extract_type_value(out: &[char]) -> (r: Option<Vec<char>>)
    ensures
        match r {
            Some(v) => spec_type_value(out@) == Some(v@),
            None => spec_type_value(out@) is None,
        },
{
    let first_nl = match scan_char(out, '\n') {
        Some(i) => i,
        None => {
            return None;
        },
    };
    let n = out.len();
    proof {
        lemma_find_char(out@, '\n');
        assert(first_nl < n);
    }
    let rest = copy_range(out, first_nl + 1, n);
    proof {
        assert(rest@ =~= out@.skip(first_nl + 1));
    }
    let line = match scan_char(rest.as_slice(), '\n') {
        Some(j) => {
            proof {
                lemma_find_char(rest@, '\n');
            }
            copy_range(rest.as_slice(), 0, j)
        },
        None => rest,
    };
    proof {
        assert(line@ == (match find_char(out@.skip(first_nl + 1), '\n') {
            Some(j) => out@.skip(first_nl + 1).take(j),
            None => out@.skip(first_nl + 1),
        })) by {
            match find_char(out@.skip(first_nl + 1), '\n') {
                Some(j) => {
                    assert(line@ =~= out@.skip(first_nl + 1).take(j));
                },
                None => {},
            }
        }
    }
    match scan_char(line.as_slice(), '=') {
        Some(k) => {
            proof {
                lemma_find_char(line@, '=');
            }
            let v = copy_range(line.as_slice(), k + 1, line.len());
            proof {
                assert(v@ =~= line@.skip(k + 1));
            }
            Some(v)
        },
        None => None,
    }
}

/// Classifies a round whose programmatic lookup reported `Unknown`, from the
/// textual utility's raw output:
/// - output with no second line or no `=` on it: a `MalformedTextualOutput`
///   failure;
/// - textual type different from the type requested at format time: a
///   `FormatSanityMismatch` failure — the formatting step itself is suspect;
/// - textual type equal to the requested type but different from the
///   programmatic result: the mismatch under test;
/// - textual type equal to both: a consistent round.
pub fn resolve_textual(requested: &FsType, programmatic: FsType, out: &[char]) -> (r:
    DetectionOutcome)
    requires
        programmatic is Unknown,
    ensures
        match spec_type_value(out@) {
            None => r == (DetectionOutcome::Failure {
                reason: FailureReason::MalformedTextualOutput,
            }),
            Some(v) => {
                let textual = spec_parse_fs_type(v);
                if textual != *requested {
                    r == (DetectionOutcome::Failure {
                        reason: FailureReason::FormatSanityMismatch {
                            requested: *requested,
                            textual,
                        },
                    })
                } else if textual == programmatic {
                    r == (DetectionOutcome::Consistent { fs_type: textual })
                } else {
                    r == (DetectionOutcome::Mismatch { programmatic, textual })
                }
            },
        },
{
    let value = match extract_type_value(out) {
        Some(v) => v,
        None => {
            return DetectionOutcome::Failure { reason: FailureReason::MalformedTextualOutput };
        },
    };
    let textual = parse_fs_type(value.as_slice());
    if !fs_type_eq(&textual, requested) {
        DetectionOutcome::Failure {
            reason: FailureReason::FormatSanityMismatch { requested: *requested, textual },
        }
    } else if fs_type_eq(&textual, &programmatic) {
        DetectionOutcome::Consistent { fs_type: textual }
    } else {
        DetectionOutcome::Mismatch { programmatic, textual }
    }
}

} // verus!
