//! What is known of a repository before its refs are read.

use crate::path;
use crate::path::FileView;
use crate::path::GitFile;
use crate::path::GitPath;
use crate::path::PathView;
use crate::reads;
use crate::reads::Progress;
use crate::reads::Reads;
use crate::reads::ReadsView;
use crate::reads::Request;
use crate::reads::RequestView;
use crate::reads::Slot;
use crate::types;
use crate::types::ContextView;
use crate::types::FileDepView;
use crate::types::GitWorktreeInfo;
use crate::types::RepoContext;
use crate::types::WorktreeView;
use vstd::prelude::*;

verus! {

/// The files that say where a checkout's repository lies and how it is set up. A linked
/// checkout has a configuration file of its own beside the shared one.
pub open spec fn dependency_files(info: WorktreeView) -> Seq<FileView> {
    let shared = seq![
        path::file_in(info.repo_root, ".git"@),
        path::file_in(info.git_dir, "commondir"@),
        path::file_in(info.git_dir, "HEAD"@),
        path::file_in(info.git_common_dir, "config"@),
    ];
    if path::same_path(info.git_dir, info.git_common_dir) {
        shared
    } else {
        shared.push(path::file_in(info.git_dir, "config"@))
    }
}

/// Whether a second look at the checkout found what the first one had found.
pub open spec fn found_again(info: WorktreeView, reads: ReadsView) -> bool {
    match reads.worktree_again->0 {
        Some(again) => types::same_worktree(again, info),
        None => false,
    }
}

/// Whether nothing moved while the files were being stamped.
pub open spec fn undisturbed(info: WorktreeView, reads: ReadsView) -> bool {
    &&& found_again(info, reads)
    &&& reads.reftable_again->0 == reads.reftable->0
    &&& reads.deps_current->0
}

/// The next question on the way to a new context: where the checkout lies, how its refs are
/// kept, a stamp of each file, and then each of these once more until one has changed.
pub open spec fn repo_context_ask(cwd: PathView, reads: ReadsView) -> Option<(Slot, RequestView)> {
    match reads.worktree {
        None => Some((Slot::Worktree, RequestView::WorktreeInfo { cwd })),
        Some(None) => None,
        Some(Some(info)) => if reads.reftable is None {
            Some(
                (
                    Slot::RefStorage,
                    RequestView::RefStorageIsReftable { git_common_dir: info.git_common_dir },
                ),
            )
        } else if reads.deps.len() < dependency_files(info).len() {
            Some(
                (
                    Slot::Stamp,
                    RequestView::Stamp { file: dependency_files(info)[reads.deps.len() as int] },
                ),
            )
        } else if reads.worktree_again is None {
            Some((Slot::WorktreeAgain, RequestView::WorktreeInfo { cwd }))
        } else if !found_again(info, reads) {
            None
        } else if reads.reftable_again is None {
            Some(
                (
                    Slot::RefStorageAgain,
                    RequestView::RefStorageIsReftable { git_common_dir: info.git_common_dir },
                ),
            )
        } else if reads.reftable_again != reads.reftable {
            None
        } else if reads.deps_current is None {
            Some((Slot::FreshDeps, RequestView::DepsCurrent { deps: reads.deps }))
        } else {
            None
        },
    }
}

/// The new context, where there is a checkout. The first of its files is marked as
/// unreliable if anything moved meanwhile.
pub open spec fn repo_context_value(reads: ReadsView) -> Option<ContextView> {
    match reads.worktree->0 {
        None => None,
        Some(info) => Some(
            ContextView {
                info,
                reftable: reads.reftable->0,
                deps: reads.deps.update(
                    0,
                    FileDepView {
                        stable: reads.deps[0].stable && undisturbed(info, reads),
                        ..reads.deps[0]
                    },
                ),
                config: None,
            },
        ),
    }
}

/// Lists the files that a context depends on.
pub fn list_dependencies(info: &GitWorktreeInfo) -> (files: Vec<GitFile>)
    ensures
        files.deep_view() == dependency_files(info.deep_view()),
{
    let mut files: Vec<GitFile> = Vec::new();
    files.push(info.repo_root.file(".git"));
    files.push(info.git_dir.file("commondir"));
    files.push(info.git_dir.file("HEAD"));
    files.push(info.git_common_dir.file("config"));
    if !info.git_dir.same_as(&info.git_common_dir) {
        files.push(info.git_dir.file("config"));
    }
    assert(files.deep_view() =~= dependency_files(info.deep_view()));
    files
}

/// Puts a context together from the answers to all questions about it.
fn assemble(info: &GitWorktreeInfo, reftable: bool, reads: &Reads, steady: bool) -> (context:
    RepoContext)
    requires
        reads.deps.len() > 0,
        reads.deep_view().worktree == Some(Some(info.deep_view())),
        reads.deep_view().reftable == Some(reftable),
        steady == undisturbed(info.deep_view(), reads.deep_view()),
    ensures
        Some(context.deep_view()) == repo_context_value(reads.deep_view()),
{
    let mut deps = types::clone_deps(&reads.deps);
    let ghost before = deps.deep_view();
    proof {
        assert(before.len() == reads.deps.len());
        assert(before[0] == deps[0].deep_view());
    }
    let mut first = deps[0].clone();
    first.stable = first.stable && steady;
    deps.set(0, first);
    assert(deps.deep_view() =~= before.update(0, first.deep_view()));
    RepoContext { info: info.clone(), reftable, deps, config: None }
}

/// Finds out where the checkout of a directory lies and how its repository is set up.
pub fn repo_context(cwd: &GitPath, reads: &Reads) -> (progress: Progress<Option<RepoContext>>)
    ensures
        reads::settles(
            progress,
            repo_context_ask(cwd.deep_view(), reads.deep_view()),
            repo_context_value(reads.deep_view()),
        ),
{
    let info = match &reads.worktree {
        None => {
            return Progress::Ask(Slot::Worktree, Request::WorktreeInfo { cwd: cwd.clone() });
        },
        Some(None) => {
            return Progress::Done(None);
        },
        Some(Some(info)) => info,
    };
    let reftable = match &reads.reftable {
        None => {
            return Progress::Ask(
                Slot::RefStorage,
                Request::RefStorageIsReftable { git_common_dir: info.git_common_dir.clone() },
            );
        },
        Some(reftable) => *reftable,
    };
    let files = list_dependencies(info);
    assert(files.len() == dependency_files(info.deep_view()).len());
    if reads.deps.len() < files.len() {
        return Progress::Ask(
            Slot::Stamp,
            Request::Stamp { file: files[reads.deps.len()].clone() },
        );
    }
    let again = match &reads.worktree_again {
        None => {
            return Progress::Ask(Slot::WorktreeAgain, Request::WorktreeInfo { cwd: cwd.clone() });
        },
        Some(again) => again,
    };
    let found = match again {
        Some(again) => *again == *info,
        None => false,
    };
    if !found {
        return Progress::Done(Some(assemble(info, reftable, reads, false)));
    }
    match &reads.reftable_again {
        None => {
            return Progress::Ask(
                Slot::RefStorageAgain,
                Request::RefStorageIsReftable { git_common_dir: info.git_common_dir.clone() },
            );
        },
        Some(again) => {
            if *again != reftable {
                return Progress::Done(Some(assemble(info, reftable, reads, false)));
            }
        },
    }
    match &reads.deps_current {
        None => Progress::Ask(
            Slot::FreshDeps,
            Request::DepsCurrent { deps: types::clone_deps(&reads.deps) },
        ),
        Some(current) => Progress::Done(Some(assemble(info, reftable, reads, *current))),
    }
}

} // verus!
