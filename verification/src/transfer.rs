//! Placement of a file at its destination: the candidate path, the probe of
//! what already sits there, the decided plan (skip, save, or save under a
//! `dup.` name), and the recording of the result. The surrounding program
//! performs the probe and the copy or move; every decision is made here.

use vstd::prelude::*;
use vstd::string::*;
use crate::stats::TransferOutcome;
use crate::tags::path_writable;
use crate::text::file_name_of;

verus! {

/// The run configuration, threaded explicitly through the pipeline.
#[derive(Clone, Debug)]
pub struct Args {
    /// The source folder (or single file) of the media to be sorted.
    pub source: String,
    /// The destination root of the sorted media.
    pub destination: String,
    /// The file type to sort, with `*` for all.
    pub file_type: String,
    /// Copy the files instead of moving them.
    pub copy: bool,
    /// Compute statistics without touching the filesystem.
    pub dry_run: bool,
    /// Log each saved file.
    pub log_saved: bool,
}

/// What a probe of the candidate destination path found.
#[derive(Clone, Copy, Debug, PartialEq, Eq, Structural)]
pub enum DestCheck {
    /// Nothing sits at the candidate path.
    NotPresent,
    /// A file sits there and its bytes equal the source's.
    PresentIdentical,
    /// A file sits there and its bytes differ from the source's.
    PresentDifferent,
    /// A file sits there but comparing it with the source failed.
    PresentCompareFailed,
}

/// Whether the file is to be copied or moved.
#[derive(Clone, Copy, Debug, PartialEq, Eq, Structural)]
pub enum TransferMode {
    CopyFile,
    MoveFile,
}

/// The decided action for one file.
#[derive(Clone, Debug, PartialEq, Eq)]
pub enum MediaPlan {
    /// The source path carries no file name; nothing can be done.
    NoFileName,
    /// A byte-identical file already sits at the destination: skip.
    SkipIdentical,
    /// The comparison with the present file failed: leave the file alone.
    CompareFailed,
    /// Place the file at `dest_path`; `mutate` is false under dry-run, where
    /// the filesystem must not be touched.
    Transfer { dest_path: String, duplicate: bool, mode: TransferMode, mutate: bool },
}

/// `dir`, the path separator, then `name`.
pub open spec fn joined_path(dir: Seq<char>, name: Seq<char>) -> Seq<char> {
    dir + seq!['/'] + name
}

/// The name a content-conflicting file is saved under.
pub open spec fn dup_name(name: Seq<char>) -> Seq<char> {
    "dup."@ + name
}

/// The candidate destination path for a file named `file_name`.
pub fn candidate_file_path(dest_dir: &str, file_name: &str) -> (r: String)
    ensures
        r@ == joined_path(dest_dir@, file_name@),
{
    let mut s = String::from_str(dest_dir);
    s.append("/");
    s.append(file_name);
    proof {
        reveal_strlit("/");
        assert(s@ =~= joined_path(dest_dir@, file_name@));
    }
    s
}

/// The destination path for a file whose name conflicts with different
/// content: the same directory, under `dup.<name>`.
pub fn duplicate_file_path(dest_dir: &str, file_name: &str) -> (r: String)
    ensures
        r@ == joined_path(dest_dir@, dup_name(file_name@)),
{
    let mut s = String::from_str(dest_dir);
    s.append("/");
    s.append("dup.");
    s.append(file_name);
    proof {
        reveal_strlit("/");
        assert(s@ =~= joined_path(dest_dir@, dup_name(file_name@)));
    }
    s
}

/// The plan that placement must decide for the given file, probe and
/// configuration.
pub open spec fn plan_for(
    original_file: Seq<char>,
    dest_dir: Seq<char>,
    check: DestCheck,
    copy: bool,
    dry_run: bool,
    plan: MediaPlan,
) -> bool {
    let name = file_name_of(original_file);
    if name.len() == 0 {
        plan == MediaPlan::NoFileName
    } else {
        match check {
            DestCheck::PresentIdentical => plan == MediaPlan::SkipIdentical,
            DestCheck::PresentCompareFailed => plan == MediaPlan::CompareFailed,
            DestCheck::NotPresent => (plan matches MediaPlan::Transfer {
                dest_path,
                duplicate,
                mode,
                mutate,
            } && dest_path@ == joined_path(dest_dir, name) && !duplicate && mode == (if copy {
                TransferMode::CopyFile
            } else {
                TransferMode::MoveFile
            }) && mutate == !dry_run),
            DestCheck::PresentDifferent => (plan matches MediaPlan::Transfer {
                dest_path,
                duplicate,
                mode,
                mutate,
            } && dest_path@ == joined_path(dest_dir, dup_name(name)) && duplicate && mode == (
            if copy {
                TransferMode::CopyFile
            } else {
                TransferMode::MoveFile
            }) && mutate == !dry_run),
        }
    }
}

/// Decides what to do with `original_file` bound for `dest_dir`, given what a
/// probe of the candidate path found: an identical file is skipped, a
/// conflicting file forces the `dup.` name, and otherwise the file is placed
/// under its own name. Under dry-run the plan never directs a mutation.
pub fn handle_media(original_file: &str, dest_dir: &str, check: &DestCheck, config: &Args) -> (plan:
    MediaPlan)
    ensures
        plan_for(original_file@, dest_dir@, *check, config.copy, config.dry_run, plan),
{
    let name = crate::text::file_name_str(original_file);
    if name.as_str().unicode_len() == 0 {
        return MediaPlan::NoFileName;
    }
    let mode = if config.copy {
        TransferMode::CopyFile
    } else {
        TransferMode::MoveFile
    };
    match check {
        DestCheck::PresentIdentical => MediaPlan::SkipIdentical,
        DestCheck::PresentCompareFailed => MediaPlan::CompareFailed,
        DestCheck::NotPresent => MediaPlan::Transfer {
            dest_path: candidate_file_path(dest_dir, name.as_str()),
            duplicate: false,
            mode,
            mutate: !config.dry_run,
        },
        DestCheck::PresentDifferent => MediaPlan::Transfer {
            dest_path: duplicate_file_path(dest_dir, name.as_str()),
            duplicate: true,
            mode,
            mutate: !config.dry_run,
        },
    }
}

/// The terminal outcome of carrying out a transfer plan: a failure stays a
/// failure, and a success is a duplicate save exactly when the plan resolved
/// a content conflict.
pub fn transfer_outcome(duplicate: bool, transfer_ok: bool) -> (o: TransferOutcome)
    ensures
        o == (if !transfer_ok {
            TransferOutcome::Failed
        } else if duplicate {
            TransferOutcome::SavedAsDuplicate
        } else {
            TransferOutcome::Saved
        }),
{
    if !transfer_ok {
        TransferOutcome::Failed
    } else if duplicate {
        TransferOutcome::SavedAsDuplicate
    } else {
        TransferOutcome::Saved
    }
}

/// After a failed transfer: whether a warning about file permissions is due,
/// because the source file is not writable and so likely not removable. The
/// answer comes from the filesystem.
pub fn handle_if_removable(file: &str) -> (warn: bool) {
    !path_writable(file)
}

/// With dry-run configured, no decided plan ever directs a filesystem
/// mutation, whatever the file, destination and probe.
pub proof fn lemma_dry_run_never_mutates(
    original_file: Seq<char>,
    dest_dir: Seq<char>,
    check: DestCheck,
    copy: bool,
    plan: MediaPlan,
)
    requires
        plan_for(original_file, dest_dir, check, copy, true, plan),
    ensures
        plan matches MediaPlan::Transfer { mutate, .. } ==> !mutate,
{
}

/// A content conflict is planned as a duplicate save: when a different file
/// already sits at the candidate path, the plan places the source under
/// `dup.<name>` in the same directory, and marks it a duplicate.
pub proof fn lemma_conflict_saved_as_dup(
    original_file: Seq<char>,
    dest_dir: Seq<char>,
    copy: bool,
    dry_run: bool,
    plan: MediaPlan,
)
    requires
        file_name_of(original_file).len() > 0,
        plan_for(original_file, dest_dir, DestCheck::PresentDifferent, copy, dry_run, plan),
    ensures
        plan matches MediaPlan::Transfer { dest_path, duplicate, .. } ==> (dest_path@
            == joined_path(dest_dir, dup_name(file_name_of(original_file))) && duplicate),
        plan is Transfer,
{
}

/// A byte-identical file at the destination is always skipped, never saved
/// again: the core of a re-run over an already-organized directory.
pub proof fn lemma_identical_always_skipped(
    original_file: Seq<char>,
    dest_dir: Seq<char>,
    copy: bool,
    dry_run: bool,
    plan: MediaPlan,
)
    requires
        file_name_of(original_file).len() > 0,
        plan_for(original_file, dest_dir, DestCheck::PresentIdentical, copy, dry_run, plan),
    ensures
        plan == MediaPlan::SkipIdentical,
{
}

} // verus!
