//! The Git status of a workspace, refreshed with the help of what the last refresh left.

use crate::bytes;
use crate::context;
use crate::fingerprint;
use crate::path::GitPath;
use crate::path::PathView;
use crate::reads;
use crate::reads::Progress;
use crate::reads::Reads;
use crate::reads::ReadsView;
use crate::reads::Request;
use crate::reads::RequestView;
use crate::reads::Slot;
use crate::types::ContextView;
use crate::types::EntryView;
use crate::types::FingerprintView;
use crate::types::GitSpaceMetadata;
use crate::types::GitStatusCacheEntry;
use crate::types::Moment;
use crate::types::RepoContext;
use crate::types::SnapshotView;
use crate::types::WorkspaceGitStatusSnapshot;
use vstd::prelude::*;

verus! {

/// How long a refresh that found no repository is taken at its word: thirty seconds.
pub const RETRY_NANOS: u64 = 30_000_000_000;

/// Which parts of the status a refresh is wanted for.
#[derive(Debug, Clone, Copy, PartialEq, Eq, Structural)]
pub struct GitStatusRefreshDemand {
    pub branch: bool,
    pub dirty: bool,
}

impl Default for GitStatusRefreshDemand {
    fn default() -> (demand: Self)
        ensures
            !demand.branch && !demand.dirty,
    {
        GitStatusRefreshDemand { branch: false, dirty: false }
    }
}

/// A demand for everything.
pub open spec fn everything() -> GitStatusRefreshDemand {
    GitStatusRefreshDemand { branch: true, dirty: true }
}

impl GitStatusRefreshDemand {
    /// Demands everything.
    pub fn all() -> (demand: Self)
        ensures
            demand == everything(),
    {
        GitStatusRefreshDemand { branch: true, dirty: true }
    }

    /// Whether nothing is wanted.
    pub fn is_empty(self) -> (empty: bool)
        ensures
            empty == (!self.branch && !self.dirty),
    {
        !self.branch && !self.dirty
    }
}

/// The next question on the way to the key of a directory: the checkout it lies in, and then
/// the resolved path of the top of that checkout.
pub open spec fn cache_key_ask(cwd: PathView, reads: ReadsView) -> Option<(Slot, RequestView)> {
    match reads.worktree {
        None => Some((Slot::Worktree, RequestView::WorktreeInfo { cwd })),
        Some(None) => None,
        Some(Some(info)) => space_key_ask(info.repo_root, reads),
    }
}

/// The key of a directory, where it lies in a checkout.
pub open spec fn cache_key_value(reads: ReadsView) -> Option<PathView> {
    match reads.worktree->0 {
        None => None,
        Some(info) => Some(space_key_value(reads)),
    }
}

/// The question on the way to the key of a repository: the resolved path of its top.
pub open spec fn space_key_ask(repo_root: PathView, reads: ReadsView) -> Option<
    (Slot, RequestView),
> {
    if reads.canonical is None {
        Some((Slot::Canonical, RequestView::Canonicalize { path: repo_root }))
    } else {
        None
    }
}

/// The key of a repository.
pub open spec fn space_key_value(reads: ReadsView) -> PathView {
    reads.canonical->0
}

/// Finds the key under which the status of a directory is cached.
pub fn git_status_cache_key(cwd: &GitPath, reads: &Reads) -> (progress: Progress<Option<GitPath>>)
    ensures
        reads::settles(
            progress,
            cache_key_ask(cwd.deep_view(), reads.deep_view()),
            cache_key_value(reads.deep_view()),
        ),
{
    match &reads.worktree {
        None => Progress::Ask(Slot::Worktree, Request::WorktreeInfo { cwd: cwd.clone() }),
        Some(None) => Progress::Done(None),
        Some(Some(info)) => match canonical_path(&info.repo_root, reads) {
            Progress::Ask(slot, request) => Progress::Ask(slot, request),
            Progress::Done(key) => Progress::Done(Some(key)),
        },
    }
}

/// Finds the key under which the status of a repository is cached.
pub fn git_status_cache_key_for_space(space: &GitSpaceMetadata, reads: &Reads) -> (progress:
    Progress<GitPath>)
    ensures
        reads::settles(
            progress,
            space_key_ask(space.deep_view(), reads.deep_view()),
            space_key_value(reads.deep_view()),
        ),
{
    canonical_path(&space.repo_root, reads)
}

/// Resolves the links in the path of a checkout.
fn canonical_path(repo_root: &GitPath, reads: &Reads) -> (progress: Progress<GitPath>)
    ensures
        reads::settles(
            progress,
            space_key_ask(repo_root.deep_view(), reads.deep_view()),
            space_key_value(reads.deep_view()),
        ),
{
    match &reads.canonical {
        None => Progress::Ask(Slot::Canonical, Request::Canonicalize { path: repo_root.clone() }),
        Some(path) => Progress::Done(path.clone()),
    }
}

/// The arguments that make Git list what has changed, one entry to a line, without taking
/// locks that it can do without.
pub open spec fn dirty_args() -> Seq<Seq<char>> {
    seq!["--no-optional-locks"@, "status"@, "--porcelain"@]
}

/// The question on the way to the number of changes in a directory.
pub open spec fn dirty_ask(cwd: PathView, reads: ReadsView) -> Option<(Slot, RequestView)> {
    if reads.dirty is None {
        Some((Slot::Dirty, RequestView::RunGit { dir: cwd, args: dirty_args() }))
    } else {
        None
    }
}

/// The number of changes, where Git could list them: the nonempty lines of the list.
pub open spec fn dirty_value(reads: ReadsView) -> Option<usize> {
    match reads.dirty->0 {
        Some(output) => if output.success {
            Some(bytes::nonempty_lines(output.stdout).len() as usize)
        } else {
            None
        },
        None => None,
    }
}

/// Counts the changes in a directory.
pub fn git_dirty_count(cwd: &GitPath, reads: &Reads) -> (progress: Progress<Option<usize>>)
    ensures
        reads::settles(
            progress,
            dirty_ask(cwd.deep_view(), reads.deep_view()),
            dirty_value(reads.deep_view()),
        ),
{
    match &reads.dirty {
        None => {
            let mut args: Vec<String> = Vec::new();
            args.push("--no-optional-locks".to_string());
            args.push("status".to_string());
            args.push("--porcelain".to_string());
            assert(args.deep_view() =~= dirty_args());
            Progress::Ask(Slot::Dirty, Request::RunGit { dir: cwd.clone(), args })
        },
        Some(None) => Progress::Done(None),
        Some(Some(output)) => {
            if !output.success {
                return Progress::Done(None);
            }
            Progress::Done(Some(bytes::count_lines(&output.stdout)))
        },
    }
}

/// The time before which a cached miss stands, where the cache holds one.
pub open spec fn stands_until(cached: Option<EntryView>) -> Option<nat> {
    match cached {
        Some(entry) => if entry.fingerprint is None {
            entry.retry_after
        } else {
            None
        },
        None => None,
    }
}

/// Whether the cache holds a miss that still stands.
pub open spec fn still_stands(cached: Option<EntryView>, reads: ReadsView) -> bool {
    match stands_until(cached) {
        Some(deadline) => deadline > reads.clock->0,
        None => false,
    }
}

/// The context that the last refresh left, where it found a repository.
pub open spec fn cached_context(cached: Option<EntryView>) -> Option<ContextView> {
    match cached {
        Some(entry) => match entry.fingerprint {
            Some(fingerprint) => Some(fingerprint.repository_context),
            None => None,
        },
        None => None,
    }
}

/// The next question on the way to the context of a refresh: whether the files behind the
/// cached one are unchanged, and otherwise all that a new one takes.
pub open spec fn current_context_ask(
    cwd: PathView,
    cached: Option<EntryView>,
    reads: ReadsView,
) -> Option<(Slot, RequestView)> {
    match cached_context(cached) {
        Some(context) => match reads.cached_deps_current {
            None => Some((Slot::CachedDeps, RequestView::DepsCurrent { deps: context.deps })),
            Some(true) => None,
            Some(false) => context::repo_context_ask(cwd, reads),
        },
        None => context::repo_context_ask(cwd, reads),
    }
}

/// The context of a refresh, where there is a repository.
pub open spec fn current_context(cached: Option<EntryView>, reads: ReadsView) -> Option<
    ContextView,
> {
    match cached_context(cached) {
        Some(context) => if reads.cached_deps_current->0 {
            Some(context)
        } else {
            context::repo_context_value(reads)
        },
        None => context::repo_context_value(reads),
    }
}

/// The questions of a refresh that found no repository.
pub open spec fn miss_ask(cwd: PathView, reads: ReadsView) -> Option<(Slot, RequestView)> {
    if reads.fallback_label is None {
        Some((Slot::FallbackLabel, RequestView::FallbackLabel { cwd }))
    } else if reads.miss_clock is None {
        Some((Slot::MissClock, RequestView::Clock))
    } else {
        None
    }
}

/// The status of a directory outside any repository: a label and nothing more.
pub open spec fn miss_snapshot(auto_label: Seq<char>) -> SnapshotView {
    SnapshotView { auto_label, branch: None, space: None, dirty: None }
}

/// What a refresh that found no repository comes to. It is not to be repeated before the
/// retry time has passed.
pub open spec fn miss_value(reads: ReadsView) -> (SnapshotView, Option<EntryView>) {
    let snapshot = miss_snapshot(reads.fallback_label->0);
    (
        snapshot,
        Some(
            EntryView {
                fingerprint: None,
                retry_after: Some((reads.miss_clock->0 + RETRY_NANOS) as nat),
                snapshot,
            },
        ),
    )
}

/// The questions of a refresh that found a repository: the label, the repository, `HEAD`,
/// and the changes if they are wanted.
pub open spec fn repo_status_ask(
    cwd: PathView,
    context: ContextView,
    demand: GitStatusRefreshDemand,
    reads: ReadsView,
) -> Option<(Slot, RequestView)> {
    if reads.auto_label is None {
        Some(
            (
                Slot::AutoLabel,
                RequestView::AutomaticLabel { cwd, repo_root: context.info.repo_root },
            ),
        )
    } else if reads.space is None {
        Some((Slot::Space, RequestView::SpaceMetadata { info: context.info }))
    } else if fingerprint::fingerprint_ask(context, false, reads) is Some {
        fingerprint::fingerprint_ask(context, false, reads)
    } else if demand.dirty {
        dirty_ask(cwd, reads)
    } else {
        None
    }
}

/// The branch to show, where it is wanted and `HEAD` is on one.
pub open spec fn shown_branch(
    demand: GitStatusRefreshDemand,
    fingerprint: Option<FingerprintView>,
) -> Option<Seq<char>> {
    match fingerprint {
        Some(fingerprint) => if demand.branch {
            fingerprint::branch_value(fingerprint)
        } else {
            None
        },
        None => None,
    }
}

/// The status of a directory in a repository.
pub open spec fn repo_snapshot(
    context: ContextView,
    demand: GitStatusRefreshDemand,
    reads: ReadsView,
) -> SnapshotView {
    SnapshotView {
        auto_label: reads.auto_label->0,
        branch: shown_branch(demand, fingerprint::fingerprint_value(context, false, reads)),
        space: Some(reads.space->0),
        dirty: if demand.dirty {
            dirty_value(reads)
        } else {
            None
        },
    }
}

/// What a refresh that found a repository comes to. Without a fingerprint nothing is cached.
pub open spec fn repo_status_value(
    context: ContextView,
    demand: GitStatusRefreshDemand,
    reads: ReadsView,
) -> (SnapshotView, Option<EntryView>) {
    let snapshot = repo_snapshot(context, demand, reads);
    (
        snapshot,
        match fingerprint::fingerprint_value(context, false, reads) {
            Some(fingerprint) => Some(
                EntryView { fingerprint: Some(fingerprint), retry_after: None, snapshot },
            ),
            None => None,
        },
    )
}

/// The next question of a refresh. A cached miss is judged by the clock alone; only where it
/// does not stand are files looked at.
pub open spec fn status_ask(
    cwd: PathView,
    cached: Option<EntryView>,
    demand: GitStatusRefreshDemand,
    reads: ReadsView,
) -> Option<(Slot, RequestView)> {
    if stands_until(cached) is Some && reads.clock is None {
        Some((Slot::Clock, RequestView::Clock))
    } else if still_stands(cached, reads) {
        None
    } else if current_context_ask(cwd, cached, reads) is Some {
        current_context_ask(cwd, cached, reads)
    } else {
        match current_context(cached, reads) {
            None => miss_ask(cwd, reads),
            Some(context) => repo_status_ask(cwd, context, demand, reads),
        }
    }
}

/// What a refresh comes to: the status to show, and what to cache.
pub open spec fn status_value(
    cached: Option<EntryView>,
    demand: GitStatusRefreshDemand,
    reads: ReadsView,
) -> (SnapshotView, Option<EntryView>) {
    if still_stands(cached, reads) {
        (cached->0.snapshot, cached)
    } else {
        match current_context(cached, reads) {
            None => miss_value(reads),
            Some(context) => repo_status_value(context, demand, reads),
        }
    }
}

/// Whether the retry time after a miss can be written down.
pub open spec fn deadline_fits(reads: ReadsView) -> bool {
    match reads.miss_clock {
        Some(now) => now + RETRY_NANOS <= u64::MAX,
        None => true,
    }
}

/// Finds the context of a refresh.
fn find_context(cwd: &GitPath, cached: Option<&GitStatusCacheEntry>, reads: &Reads) -> (progress:
    Progress<Option<RepoContext>>)
    ensures
        reads::settles(
            progress,
            current_context_ask(cwd.deep_view(), cached.deep_view(), reads.deep_view()),
            current_context(cached.deep_view(), reads.deep_view()),
        ),
{
    if let Some(entry) = cached {
        if let Some(fingerprint) = &entry.fingerprint {
            let context = fingerprint.repository_context.clone();
            match &reads.cached_deps_current {
                None => {
                    return Progress::Ask(
                        Slot::CachedDeps,
                        Request::DepsCurrent { deps: context.deps },
                    );
                },
                Some(current) => {
                    if *current {
                        return Progress::Done(Some(context));
                    }
                },
            }
        }
    }
    context::repo_context(cwd, reads)
}

/// Refreshes the status of a directory outside any repository.
fn refresh_miss(cwd: &GitPath, reads: &Reads) -> (progress: Progress<
    (WorkspaceGitStatusSnapshot, Option<GitStatusCacheEntry>),
>)
    requires
        deadline_fits(reads.deep_view()),
    ensures
        reads::settles(
            progress,
            miss_ask(cwd.deep_view(), reads.deep_view()),
            miss_value(reads.deep_view()),
        ),
{
    let auto_label = match &reads.fallback_label {
        None => {
            return Progress::Ask(
                Slot::FallbackLabel,
                Request::FallbackLabel { cwd: cwd.clone() },
            );
        },
        Some(label) => label.clone(),
    };
    let now = match &reads.miss_clock {
        None => {
            return Progress::Ask(Slot::MissClock, Request::Clock);
        },
        Some(now) => *now,
    };
    let snapshot = WorkspaceGitStatusSnapshot { auto_label, branch: None, space: None, dirty: None };
    Progress::Done(
        (
            snapshot.clone(),
            Some(
                GitStatusCacheEntry {
                    fingerprint: None,
                    retry_after: Some(Moment { nanos: now.nanos + RETRY_NANOS }),
                    snapshot,
                },
            ),
        ),
    )
}

/// Refreshes the status of a directory in a repository.
fn refresh_repo(
    cwd: &GitPath,
    context: RepoContext,
    demand: GitStatusRefreshDemand,
    reads: &Reads,
) -> (progress: Progress<(WorkspaceGitStatusSnapshot, Option<GitStatusCacheEntry>)>)
    ensures
        reads::settles(
            progress,
            repo_status_ask(cwd.deep_view(), context.deep_view(), demand, reads.deep_view()),
            repo_status_value(context.deep_view(), demand, reads.deep_view()),
        ),
{
    let auto_label = match &reads.auto_label {
        None => {
            return Progress::Ask(
                Slot::AutoLabel,
                Request::AutomaticLabel {
                    cwd: cwd.clone(),
                    repo_root: context.info.repo_root.clone(),
                },
            );
        },
        Some(label) => label.clone(),
    };
    let space = match &reads.space {
        None => {
            return Progress::Ask(
                Slot::Space,
                Request::SpaceMetadata { info: context.info.clone() },
            );
        },
        Some(space) => space.clone(),
    };
    let fingerprint = match fingerprint::fingerprint(context, false, reads) {
        Progress::Ask(slot, request) => {
            return Progress::Ask(slot, request);
        },
        Progress::Done(fingerprint) => fingerprint,
    };
    let branch = match &fingerprint {
        Some(fingerprint) => if demand.branch {
            match fingerprint.branch_name() {
                Some(name) => Some(name.to_string()),
                None => None,
            }
        } else {
            None
        },
        None => None,
    };
    // The changes are not visible in the refs, so a fingerprint says nothing about them:
    // they are counted anew each time.
    let dirty = if demand.dirty {
        match git_dirty_count(cwd, reads) {
            Progress::Ask(slot, request) => {
                return Progress::Ask(slot, request);
            },
            Progress::Done(dirty) => dirty,
        }
    } else {
        None
    };
    let snapshot = WorkspaceGitStatusSnapshot { auto_label, branch, space: Some(space), dirty };
    let entry = match fingerprint {
        Some(fingerprint) => Some(
            GitStatusCacheEntry {
                fingerprint: Some(fingerprint),
                retry_after: None,
                snapshot: snapshot.clone(),
            },
        ),
        None => None,
    };
    Progress::Done((snapshot, entry))
}

/// Refreshes the status of a directory as far as it is wanted.
pub fn git_status_snapshot_for_cwd_with_demand(
    cwd: &GitPath,
    cached: Option<&GitStatusCacheEntry>,
    demand: GitStatusRefreshDemand,
    reads: &Reads,
) -> (progress: Progress<(WorkspaceGitStatusSnapshot, Option<GitStatusCacheEntry>)>)
    requires
        deadline_fits(reads.deep_view()),
    ensures
        reads::settles(
            progress,
            status_ask(cwd.deep_view(), cached.deep_view(), demand, reads.deep_view()),
            status_value(cached.deep_view(), demand, reads.deep_view()),
        ),
{
    if let Some(entry) = cached {
        if entry.fingerprint.is_none() {
            if let Some(deadline) = &entry.retry_after {
                match &reads.clock {
                    None => {
                        return Progress::Ask(Slot::Clock, Request::Clock);
                    },
                    Some(now) => {
                        if deadline.nanos > now.nanos {
                            return Progress::Done((entry.snapshot.clone(), Some(entry.clone())));
                        }
                    },
                }
            }
        }
    }
    match find_context(cwd, cached, reads) {
        Progress::Ask(slot, request) => Progress::Ask(slot, request),
        Progress::Done(None) => refresh_miss(cwd, reads),
        Progress::Done(Some(context)) => refresh_repo(cwd, context, demand, reads),
    }
}

/// Refreshes the whole status of a directory.
pub fn git_status_snapshot_for_cwd(
    cwd: &GitPath,
    cached: Option<&GitStatusCacheEntry>,
    reads: &Reads,
) -> (progress: Progress<(WorkspaceGitStatusSnapshot, Option<GitStatusCacheEntry>)>)
    requires
        deadline_fits(reads.deep_view()),
    ensures
        reads::settles(
            progress,
            status_ask(cwd.deep_view(), cached.deep_view(), everything(), reads.deep_view()),
            status_value(cached.deep_view(), everything(), reads.deep_view()),
        ),
{
    git_status_snapshot_for_cwd_with_demand(cwd, cached, GitStatusRefreshDemand::all(), reads)
}

} // verus!
