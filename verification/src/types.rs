//! The values that a status refresh reads, keeps and hands out, with their views.

use crate::path;
use crate::path::GitPath;
use crate::path::PathView;
use vstd::prelude::*;

verus! {

/// A reading of a clock that never goes back, in nanoseconds from a fixed start.
#[derive(Debug, Clone, Copy, PartialEq, Eq, Structural)]
pub struct Moment {
    pub nanos: u64,
}

impl DeepView for Moment {
    type V = nat;

    open spec fn deep_view(&self) -> nat {
        self.nanos as nat
    }
}

/// Where a checkout and its repository lie.
#[derive(Debug)]
pub struct GitWorktreeInfo {
    /// The top directory of the checkout.
    pub repo_root: GitPath,
    /// The directory with the checkout's own Git files.
    pub git_dir: GitPath,
    /// The directory with the Git files that all linked checkouts share.
    pub git_common_dir: GitPath,
}

/// [`GitWorktreeInfo`] over sequences.
pub struct WorktreeView {
    pub repo_root: PathView,
    pub git_dir: PathView,
    pub git_common_dir: PathView,
}

impl DeepView for GitWorktreeInfo {
    type V = WorktreeView;

    open spec fn deep_view(&self) -> WorktreeView {
        WorktreeView {
            repo_root: self.repo_root.deep_view(),
            git_dir: self.git_dir.deep_view(),
            git_common_dir: self.git_common_dir.deep_view(),
        }
    }
}

impl Clone for GitWorktreeInfo {
    fn clone(&self) -> (copy: Self)
        ensures
            copy.deep_view() == self.deep_view(),
    {
        GitWorktreeInfo {
            repo_root: self.repo_root.clone(),
            git_dir: self.git_dir.clone(),
            git_common_dir: self.git_common_dir.clone(),
        }
    }
}

/// Whether two descriptions of a checkout name the same three directories.
pub open spec fn same_worktree(a: WorktreeView, b: WorktreeView) -> bool {
    &&& path::same_path(a.repo_root, b.repo_root)
    &&& path::same_path(a.git_dir, b.git_dir)
    &&& path::same_path(a.git_common_dir, b.git_common_dir)
}

impl PartialEq for GitWorktreeInfo {
    fn eq(&self, other: &Self) -> (equal: bool) {
        self.repo_root.same_as(&other.repo_root) && self.git_dir.same_as(&other.git_dir)
            && self.git_common_dir.same_as(&other.git_common_dir)
    }
}

impl vstd::std_specs::cmp::PartialEqSpecImpl for GitWorktreeInfo {
    open spec fn obeys_eq_spec() -> bool {
        true
    }

    open spec fn eq_spec(&self, other: &Self) -> bool {
        same_worktree(self.deep_view(), other.deep_view())
    }
}

impl Eq for GitWorktreeInfo {

}

/// A file that some cached knowledge was read from.
#[derive(Debug, PartialEq, Eq)]
pub struct FileDep {
    pub path: GitPath,
    /// What the file looked like when it was read, in whatever form its reader compares.
    pub stamp: Vec<u8>,
    /// Whether the stamp may be relied on.
    pub stable: bool,
}

/// [`FileDep`] over sequences.
pub struct FileDepView {
    pub path: PathView,
    pub stamp: Seq<u8>,
    pub stable: bool,
}

impl DeepView for FileDep {
    type V = FileDepView;

    open spec fn deep_view(&self) -> FileDepView {
        FileDepView { path: self.path.deep_view(), stamp: self.stamp@, stable: self.stable }
    }
}

impl Clone for FileDep {
    fn clone(&self) -> (copy: Self)
        ensures
            copy.deep_view() == self.deep_view(),
    {
        FileDep { path: self.path.clone(), stamp: self.stamp.clone(), stable: self.stable }
    }
}

/// Copies a list of dependencies.
pub fn clone_deps(deps: &Vec<FileDep>) -> (copy: Vec<FileDep>)
    ensures
        copy.deep_view() == deps.deep_view(),
{
    let copy = deps.clone();
    assert(copy.deep_view() =~= deps.deep_view());
    copy
}

/// The upstream that a branch is configured to follow.
#[derive(Debug, PartialEq, Eq)]
pub struct UpstreamConfig {
    pub remote: String,
    pub merge_ref: String,
}

/// [`UpstreamConfig`] over character sequences.
pub struct UpstreamConfigView {
    pub remote: Seq<char>,
    pub merge_ref: Seq<char>,
}

impl DeepView for UpstreamConfig {
    type V = UpstreamConfigView;

    open spec fn deep_view(&self) -> UpstreamConfigView {
        UpstreamConfigView { remote: self.remote@, merge_ref: self.merge_ref@ }
    }
}

impl Clone for UpstreamConfig {
    fn clone(&self) -> (copy: Self)
        ensures
            copy.deep_view() == self.deep_view(),
    {
        UpstreamConfig { remote: self.remote.clone(), merge_ref: self.merge_ref.clone() }
    }
}

/// What the configuration files say about one branch.
#[derive(Debug, PartialEq, Eq)]
pub struct ConfigCtx {
    /// The branch that was looked up.
    pub branch: String,
    pub upstream: Option<UpstreamConfig>,
    /// The configuration files that were read.
    pub deps: Vec<FileDep>,
}

/// [`ConfigCtx`] over sequences.
pub struct ConfigView {
    pub branch: Seq<char>,
    pub upstream: Option<UpstreamConfigView>,
    pub deps: Seq<FileDepView>,
}

impl DeepView for ConfigCtx {
    type V = ConfigView;

    open spec fn deep_view(&self) -> ConfigView {
        ConfigView {
            branch: self.branch@,
            upstream: self.upstream.deep_view(),
            deps: self.deps.deep_view(),
        }
    }
}

impl Clone for ConfigCtx {
    fn clone(&self) -> (copy: Self)
        ensures
            copy.deep_view() == self.deep_view(),
    {
        ConfigCtx {
            branch: self.branch.clone(),
            upstream: self.upstream.clone(),
            deps: clone_deps(&self.deps),
        }
    }
}

/// What is known of a repository, and the files that this knowledge depends on.
#[derive(Debug, PartialEq, Eq)]
pub struct RepoContext {
    pub info: GitWorktreeInfo,
    /// Whether the refs are kept in a reftable rather than in files.
    pub reftable: bool,
    pub deps: Vec<FileDep>,
    pub config: Option<ConfigCtx>,
}

/// [`RepoContext`] over sequences.
pub struct ContextView {
    pub info: WorktreeView,
    pub reftable: bool,
    pub deps: Seq<FileDepView>,
    pub config: Option<ConfigView>,
}

impl DeepView for RepoContext {
    type V = ContextView;

    open spec fn deep_view(&self) -> ContextView {
        ContextView {
            info: self.info.deep_view(),
            reftable: self.reftable,
            deps: self.deps.deep_view(),
            config: self.config.deep_view(),
        }
    }
}

impl Clone for RepoContext {
    fn clone(&self) -> (copy: Self)
        ensures
            copy.deep_view() == self.deep_view(),
    {
        RepoContext {
            info: self.info.clone(),
            reftable: self.reftable,
            deps: clone_deps(&self.deps),
            config: self.config.clone(),
        }
    }
}

/// What `HEAD` points at.
#[derive(Debug, PartialEq, Eq)]
#[allow(inconsistent_fields)]
pub enum GitHeadIdentity {
    /// A branch, and the commit that the branch points at, if it has one yet.
    Branch { full_ref: String, short_name: String, oid: Option<String> },
    /// A commit.
    Detached { oid: String },
}

/// [`GitHeadIdentity`] over character sequences.
#[allow(inconsistent_fields)]
pub enum HeadView {
    Branch { full_ref: Seq<char>, short_name: Seq<char>, oid: Option<Seq<char>> },
    Detached { oid: Seq<char> },
}

impl DeepView for GitHeadIdentity {
    type V = HeadView;

    open spec fn deep_view(&self) -> HeadView {
        match self {
            GitHeadIdentity::Branch { full_ref, short_name, oid } => HeadView::Branch {
                full_ref: full_ref@,
                short_name: short_name@,
                oid: oid.deep_view(),
            },
            GitHeadIdentity::Detached { oid } => HeadView::Detached { oid: oid@ },
        }
    }
}

impl Clone for GitHeadIdentity {
    fn clone(&self) -> (copy: Self)
        ensures
            copy.deep_view() == self.deep_view(),
    {
        match self {
            GitHeadIdentity::Branch { full_ref, short_name, oid } => GitHeadIdentity::Branch {
                full_ref: full_ref.clone(),
                short_name: short_name.clone(),
                oid: oid.clone(),
            },
            GitHeadIdentity::Detached { oid } => GitHeadIdentity::Detached { oid: oid.clone() },
        }
    }
}

/// The upstream of a branch, and the commit that it points at.
#[derive(Debug, PartialEq, Eq)]
pub struct GitUpstreamIdentity {
    pub remote: String,
    pub merge_ref: String,
    pub full_ref: String,
    pub oid: Option<String>,
}

/// [`GitUpstreamIdentity`] over character sequences.
pub struct UpstreamView {
    pub remote: Seq<char>,
    pub merge_ref: Seq<char>,
    pub full_ref: Seq<char>,
    pub oid: Option<Seq<char>>,
}

impl DeepView for GitUpstreamIdentity {
    type V = UpstreamView;

    open spec fn deep_view(&self) -> UpstreamView {
        UpstreamView {
            remote: self.remote@,
            merge_ref: self.merge_ref@,
            full_ref: self.full_ref@,
            oid: self.oid.deep_view(),
        }
    }
}

impl Clone for GitUpstreamIdentity {
    fn clone(&self) -> (copy: Self)
        ensures
            copy.deep_view() == self.deep_view(),
    {
        GitUpstreamIdentity {
            remote: self.remote.clone(),
            merge_ref: self.merge_ref.clone(),
            full_ref: self.full_ref.clone(),
            oid: self.oid.clone(),
        }
    }
}

/// What tells two states of a repository's refs apart.
#[derive(Debug, PartialEq, Eq)]
pub struct GitStatusFingerprint {
    pub head: GitHeadIdentity,
    pub upstream: Option<GitUpstreamIdentity>,
    /// What the fingerprint was read with.
    pub repository_context: RepoContext,
}

/// [`GitStatusFingerprint`] over sequences.
pub struct FingerprintView {
    pub head: HeadView,
    pub upstream: Option<UpstreamView>,
    pub repository_context: ContextView,
}

impl DeepView for GitStatusFingerprint {
    type V = FingerprintView;

    open spec fn deep_view(&self) -> FingerprintView {
        FingerprintView {
            head: self.head.deep_view(),
            upstream: self.upstream.deep_view(),
            repository_context: self.repository_context.deep_view(),
        }
    }
}

impl Clone for GitStatusFingerprint {
    fn clone(&self) -> (copy: Self)
        ensures
            copy.deep_view() == self.deep_view(),
    {
        GitStatusFingerprint {
            head: self.head.clone(),
            upstream: self.upstream.clone(),
            repository_context: self.repository_context.clone(),
        }
    }
}

/// The repository that a workspace belongs to.
#[derive(Debug, PartialEq, Eq)]
pub struct GitSpaceMetadata {
    pub repo_root: GitPath,
}

impl DeepView for GitSpaceMetadata {
    type V = PathView;

    open spec fn deep_view(&self) -> PathView {
        self.repo_root.deep_view()
    }
}

impl Clone for GitSpaceMetadata {
    fn clone(&self) -> (copy: Self)
        ensures
            copy.deep_view() == self.deep_view(),
    {
        GitSpaceMetadata { repo_root: self.repo_root.clone() }
    }
}

/// The Git status of a workspace as it is shown.
#[derive(Debug, PartialEq, Eq)]
pub struct WorkspaceGitStatusSnapshot {
    pub auto_label: String,
    pub branch: Option<String>,
    pub space: Option<GitSpaceMetadata>,
    /// The number of changed or untracked entries.
    pub dirty: Option<usize>,
}

/// [`WorkspaceGitStatusSnapshot`] over sequences.
pub struct SnapshotView {
    pub auto_label: Seq<char>,
    pub branch: Option<Seq<char>>,
    pub space: Option<PathView>,
    pub dirty: Option<usize>,
}

impl DeepView for WorkspaceGitStatusSnapshot {
    type V = SnapshotView;

    open spec fn deep_view(&self) -> SnapshotView {
        SnapshotView {
            auto_label: self.auto_label@,
            branch: self.branch.deep_view(),
            space: self.space.deep_view(),
            dirty: self.dirty,
        }
    }
}

impl Clone for WorkspaceGitStatusSnapshot {
    fn clone(&self) -> (copy: Self)
        ensures
            copy.deep_view() == self.deep_view(),
    {
        WorkspaceGitStatusSnapshot {
            auto_label: self.auto_label.clone(),
            branch: self.branch.clone(),
            space: self.space.clone(),
            dirty: self.dirty,
        }
    }
}

/// What a refresh leaves behind for the next one.
#[derive(Debug, PartialEq, Eq)]
pub struct GitStatusCacheEntry {
    /// The refs as they were, where a repository was found.
    pub fingerprint: Option<GitStatusFingerprint>,
    /// When to look for a repository again, where none was found.
    pub retry_after: Option<Moment>,
    pub snapshot: WorkspaceGitStatusSnapshot,
}

/// [`GitStatusCacheEntry`] over sequences.
pub struct EntryView {
    pub fingerprint: Option<FingerprintView>,
    pub retry_after: Option<nat>,
    pub snapshot: SnapshotView,
}

impl DeepView for GitStatusCacheEntry {
    type V = EntryView;

    open spec fn deep_view(&self) -> EntryView {
        EntryView {
            fingerprint: self.fingerprint.deep_view(),
            retry_after: self.retry_after.deep_view(),
            snapshot: self.snapshot.deep_view(),
        }
    }
}

impl Clone for GitStatusCacheEntry {
    fn clone(&self) -> (copy: Self)
        ensures
            copy.deep_view() == self.deep_view(),
    {
        GitStatusCacheEntry {
            fingerprint: self.fingerprint.clone(),
            retry_after: self.retry_after,
            snapshot: self.snapshot.clone(),
        }
    }
}

} // verus!
