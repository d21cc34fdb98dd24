//! What `HEAD` points at.

use crate::path;
use crate::reads;
use crate::reads::Progress;
use crate::reads::Reads;
use crate::reads::ReadsView;
use crate::reads::Request;
use crate::reads::RequestView;
use crate::reads::Slot;
use crate::text;
use crate::text::HeadTarget;
use crate::text::HeadTargetView;
use crate::types::GitHeadIdentity;
use crate::types::GitWorktreeInfo;
use crate::types::HeadView;
use crate::types::WorktreeView;
use vstd::prelude::*;

verus! {

/// The next question on the way to `HEAD` through Git: the ref it points at, and then the
/// commit of that branch, or of `HEAD` itself where it points at no ref.
pub open spec fn head_from_git_ask(info: WorktreeView, reads: ReadsView) -> Option<
    (Slot, RequestView),
> {
    match reads.symbolic_head {
        None => Some(
            (Slot::SymbolicHead, RequestView::SymbolicHead { repo_root: info.repo_root }),
        ),
        Some(Some(full_ref)) => if text::branch_in(full_ref) is Some && reads.head_oid is None {
            Some(
                (
                    Slot::HeadOid,
                    RequestView::RevParse { repo_root: info.repo_root, revision: full_ref },
                ),
            )
        } else {
            None
        },
        Some(None) => if reads.head_oid is None {
            Some(
                (
                    Slot::HeadOid,
                    RequestView::RevParse { repo_root: info.repo_root, revision: "HEAD"@ },
                ),
            )
        } else {
            None
        },
    }
}

/// What `HEAD` points at, going by what Git answered. A ref that is no branch counts as
/// nothing, and so does a detached `HEAD` without a commit.
pub open spec fn head_from_git(reads: ReadsView) -> Option<HeadView> {
    let oid = reads.head_oid->0;
    match reads.symbolic_head->0 {
        Some(full_ref) => match text::branch_in(full_ref) {
            Some(short_name) => Some(HeadView::Branch { full_ref, short_name, oid }),
            None => None,
        },
        None => match oid {
            Some(oid) => Some(HeadView::Detached { oid }),
            None => None,
        },
    }
}

/// The next question on the way to `HEAD` through its file: the text, and then the commit
/// of the branch that it names.
pub open spec fn head_from_files_ask(info: WorktreeView, reads: ReadsView) -> Option<
    (Slot, RequestView),
> {
    match reads.head_text {
        None => Some(
            (
                Slot::HeadText,
                RequestView::ReadText { file: path::file_in(info.git_dir, "HEAD"@) },
            ),
        ),
        Some(Some(text)) => match text::head_target(text) {
            HeadTargetView::Branch { full_ref, .. } => if reads.head_oid is None {
                Some(
                    (
                        Slot::HeadOid,
                        RequestView::RefOid { git_common_dir: info.git_common_dir, full_ref },
                    ),
                )
            } else {
                None
            },
            _ => None,
        },
        Some(None) => None,
    }
}

/// What `HEAD` points at, going by the text of its file. A ref that is no branch counts as
/// nothing, and so does a blank or unreadable file.
pub open spec fn head_from_files(reads: ReadsView) -> Option<HeadView> {
    match reads.head_text->0 {
        Some(text) => match text::head_target(text) {
            HeadTargetView::Branch { full_ref, short_name } => Some(
                HeadView::Branch { full_ref, short_name, oid: reads.head_oid->0 },
            ),
            HeadTargetView::Commit { oid } => Some(HeadView::Detached { oid }),
            _ => None,
        },
        None => None,
    }
}

/// The next question on the way to `HEAD`.
pub open spec fn head_ask(info: WorktreeView, reftable: bool, reads: ReadsView) -> Option<
    (Slot, RequestView),
> {
    if reftable {
        head_from_git_ask(info, reads)
    } else {
        head_from_files_ask(info, reads)
    }
}

/// What `HEAD` points at. Refs in a reftable are read by Git, others from their files.
pub open spec fn head_value(reftable: bool, reads: ReadsView) -> Option<HeadView> {
    if reftable {
        head_from_git(reads)
    } else {
        head_from_files(reads)
    }
}

/// Finds out what `HEAD` points at.
pub fn read_head_identity(info: &GitWorktreeInfo, reftable: bool, reads: &Reads) -> (progress:
    Progress<Option<GitHeadIdentity>>)
    ensures
        reads::settles(
            progress,
            head_ask(info.deep_view(), reftable, reads.deep_view()),
            head_value(reftable, reads.deep_view()),
        ),
{
    if reftable {
        return read_head_identity_from_git(info, reads);
    }
    read_head_identity_from_files(info, reads)
}

/// Finds out from Git what `HEAD` points at.
pub fn read_head_identity_from_git(info: &GitWorktreeInfo, reads: &Reads) -> (progress: Progress<
    Option<GitHeadIdentity>,
>)
    ensures
        reads::settles(
            progress,
            head_from_git_ask(info.deep_view(), reads.deep_view()),
            head_from_git(reads.deep_view()),
        ),
{
    match &reads.symbolic_head {
        None => Progress::Ask(
            Slot::SymbolicHead,
            Request::SymbolicHead { repo_root: info.repo_root.clone() },
        ),
        Some(Some(full_ref)) => match text::branch_name_in(full_ref) {
            None => Progress::Done(None),
            Some(short_name) => match &reads.head_oid {
                None => Progress::Ask(
                    Slot::HeadOid,
                    Request::RevParse {
                        repo_root: info.repo_root.clone(),
                        revision: full_ref.clone(),
                    },
                ),
                Some(oid) => Progress::Done(
                    Some(
                        GitHeadIdentity::Branch {
                            full_ref: full_ref.clone(),
                            short_name,
                            oid: oid.clone(),
                        },
                    ),
                ),
            },
        },
        Some(None) => match &reads.head_oid {
            None => Progress::Ask(
                Slot::HeadOid,
                Request::RevParse {
                    repo_root: info.repo_root.clone(),
                    revision: "HEAD".to_string(),
                },
            ),
            Some(Some(oid)) => Progress::Done(Some(GitHeadIdentity::Detached { oid: oid.clone() })),
            Some(None) => Progress::Done(None),
        },
    }
}

/// Finds out from the `HEAD` file what `HEAD` points at.
pub fn read_head_identity_from_files(info: &GitWorktreeInfo, reads: &Reads) -> (progress: Progress<
    Option<GitHeadIdentity>,
>)
    ensures
        reads::settles(
            progress,
            head_from_files_ask(info.deep_view(), reads.deep_view()),
            head_from_files(reads.deep_view()),
        ),
{
    match &reads.head_text {
        None => Progress::Ask(
            Slot::HeadText,
            Request::ReadText { file: info.git_dir.file("HEAD") },
        ),
        Some(None) => Progress::Done(None),
        Some(Some(text)) => match text::parse_head(text) {
            HeadTarget::Branch { full_ref, short_name } => match &reads.head_oid {
                None => Progress::Ask(
                    Slot::HeadOid,
                    Request::RefOid { git_common_dir: info.git_common_dir.clone(), full_ref },
                ),
                Some(oid) => Progress::Done(
                    Some(GitHeadIdentity::Branch { full_ref, short_name, oid: oid.clone() }),
                ),
            },
            HeadTarget::Commit { oid } => Progress::Done(Some(GitHeadIdentity::Detached { oid })),
            HeadTarget::OtherRef => Progress::Done(None),
            HeadTarget::Nothing => Progress::Done(None),
        },
    }
}

} // verus!
