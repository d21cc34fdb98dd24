//! What tells two states of a repository's refs apart.

use crate::context;
use crate::head;
use crate::path::GitPath;
use crate::path::PathView;
use crate::reads;
use crate::reads::Progress;
use crate::reads::Reads;
use crate::reads::ReadsView;
use crate::reads::Request;
use crate::reads::RequestView;
use crate::reads::Slot;
use crate::types;
use crate::types::ConfigCtx;
use crate::types::ConfigView;
use crate::types::ContextView;
use crate::types::FingerprintView;
use crate::types::GitHeadIdentity;
use crate::types::GitStatusFingerprint;
use crate::types::GitUpstreamIdentity;
use crate::types::HeadView;
use crate::types::RepoContext;
use crate::types::UpstreamView;
use vstd::prelude::*;

verus! {

/// Whether a context already holds the configuration of `branch`.
pub open spec fn holds_config(repo: ContextView, branch: Seq<char>) -> bool {
    match repo.config {
        Some(config) => config.branch == branch,
        None => false,
    }
}

/// Whether the configuration that a context holds is the one to use.
pub open spec fn keeps_config(repo: ContextView, branch: Seq<char>, reads: ReadsView) -> bool {
    holds_config(repo, branch) && reads.config_deps_current->0
}

/// The next question on the way to the configuration of `branch`: whether what the context
/// holds is unchanged, and otherwise what the files say now.
pub open spec fn config_ask(repo: ContextView, branch: Seq<char>, reads: ReadsView) -> Option<
    (Slot, RequestView),
> {
    if holds_config(repo, branch) && reads.config_deps_current is None {
        Some((Slot::ConfigDeps, RequestView::DepsCurrent { deps: repo.config->0.deps }))
    } else if keeps_config(repo, branch, reads) || reads.config is Some {
        None
    } else {
        Some((Slot::Config, RequestView::ReadConfig { info: repo.info, branch }))
    }
}

/// The configuration of `branch`.
pub open spec fn config_value(repo: ContextView, branch: Seq<char>, reads: ReadsView) -> ConfigView {
    if keeps_config(repo, branch, reads) {
        repo.config->0
    } else {
        reads.config->0
    }
}

/// The question for the commit of a ref, in the way in which the repository keeps its refs.
pub open spec fn oid_request(repo: ContextView, full_ref: Seq<char>) -> RequestView {
    if repo.reftable {
        RequestView::RevParse { repo_root: repo.info.repo_root, revision: full_ref }
    } else {
        RequestView::RefOid { git_common_dir: repo.info.git_common_dir, full_ref }
    }
}

/// The next question on the way to the upstream of `branch`: its configuration, the ref that
/// follows it, and the commit of that ref.
pub open spec fn upstream_ask(repo: ContextView, branch: Seq<char>, reads: ReadsView) -> Option<
    (Slot, RequestView),
> {
    if config_ask(repo, branch, reads) is Some {
        config_ask(repo, branch, reads)
    } else {
        match config_value(repo, branch, reads).upstream {
            None => None,
            Some(config) => match reads.upstream_ref {
                None => Some((Slot::UpstreamRef, RequestView::UpstreamFullRef { config })),
                Some(None) => None,
                Some(Some(full_ref)) => if reads.upstream_oid is None {
                    Some((Slot::UpstreamOid, oid_request(repo, full_ref)))
                } else {
                    None
                },
            },
        }
    }
}

/// The upstream of `branch`, where one is configured and a ref follows it.
pub open spec fn upstream_value(repo: ContextView, branch: Seq<char>, reads: ReadsView) -> Option<
    UpstreamView,
> {
    match config_value(repo, branch, reads).upstream {
        None => None,
        Some(config) => match reads.upstream_ref->0 {
            None => None,
            Some(full_ref) => Some(
                UpstreamView {
                    remote: config.remote,
                    merge_ref: config.merge_ref,
                    full_ref,
                    oid: reads.upstream_oid->0,
                },
            ),
        },
    }
}

/// The next question on the way to a fingerprint: `HEAD`, and then the upstream of its
/// branch if that is wanted.
pub open spec fn fingerprint_ask(
    repo: ContextView,
    include_upstream: bool,
    reads: ReadsView,
) -> Option<(Slot, RequestView)> {
    if head::head_ask(repo.info, repo.reftable, reads) is Some {
        head::head_ask(repo.info, repo.reftable, reads)
    } else {
        match head::head_value(repo.reftable, reads) {
            Some(HeadView::Branch { short_name, .. }) => if include_upstream {
                upstream_ask(repo, short_name, reads)
            } else {
                None
            },
            _ => None,
        }
    }
}

/// The fingerprint, where `HEAD` points at something. Its context also holds the
/// configuration that was used.
pub open spec fn fingerprint_value(
    repo: ContextView,
    include_upstream: bool,
    reads: ReadsView,
) -> Option<FingerprintView> {
    match head::head_value(repo.reftable, reads) {
        None => None,
        Some(head) => match head {
            HeadView::Branch { short_name, .. } => if include_upstream {
                Some(
                    FingerprintView {
                        head,
                        upstream: upstream_value(repo, short_name, reads),
                        repository_context: ContextView {
                            config: Some(config_value(repo, short_name, reads)),
                            ..repo
                        },
                    },
                )
            } else {
                Some(FingerprintView { head, upstream: None, repository_context: repo })
            },
            HeadView::Detached { .. } => Some(
                FingerprintView { head, upstream: None, repository_context: repo },
            ),
        },
    }
}

/// The branch that a fingerprint is on.
pub open spec fn branch_value(fingerprint: FingerprintView) -> Option<Seq<char>> {
    match fingerprint.head {
        HeadView::Branch { short_name, .. } => Some(short_name),
        HeadView::Detached { .. } => None,
    }
}

/// Finds the configuration of `branch`.
fn read_branch_config(repo: &RepoContext, branch: &str, reads: &Reads) -> (progress: Progress<
    ConfigCtx,
>)
    ensures
        reads::settles(
            progress,
            config_ask(repo.deep_view(), branch@, reads.deep_view()),
            config_value(repo.deep_view(), branch@, reads.deep_view()),
        ),
{
    let branch = branch.to_string();
    if let Some(held) = &repo.config {
        if held.branch == branch {
            match &reads.config_deps_current {
                None => {
                    return Progress::Ask(
                        Slot::ConfigDeps,
                        Request::DepsCurrent { deps: types::clone_deps(&held.deps) },
                    );
                },
                Some(current) => {
                    if *current {
                        return Progress::Done(held.clone());
                    }
                },
            }
        }
    }
    match &reads.config {
        None => Progress::Ask(
            Slot::Config,
            Request::ReadConfig { info: repo.info.clone(), branch },
        ),
        Some(config) => Progress::Done(config.clone()),
    }
}

/// Finds the upstream of `branch`. Once it is found, or known not to be there, the context
/// holds the configuration that was used; until then it stays as it was.
pub fn read_upstream(repo: &mut RepoContext, branch: &str, reads: &Reads) -> (progress: Progress<
    Option<GitUpstreamIdentity>,
>)
    ensures
        reads::settles(
            progress,
            upstream_ask(old(repo).deep_view(), branch@, reads.deep_view()),
            upstream_value(old(repo).deep_view(), branch@, reads.deep_view()),
        ),
        final(repo).deep_view() == match progress {
            Progress::Ask(..) => old(repo).deep_view(),
            Progress::Done(_) => ContextView {
                config: Some(config_value(old(repo).deep_view(), branch@, reads.deep_view())),
                ..old(repo).deep_view()
            },
        },
{
    let context = match read_branch_config(repo, branch, reads) {
        Progress::Ask(slot, request) => {
            return Progress::Ask(slot, request);
        },
        Progress::Done(context) => context,
    };
    let config = match &context.upstream {
        None => {
            repo.config = Some(context);
            return Progress::Done(None);
        },
        Some(config) => config.clone(),
    };
    let full_ref = match &reads.upstream_ref {
        None => {
            return Progress::Ask(Slot::UpstreamRef, Request::UpstreamFullRef { config });
        },
        Some(None) => {
            repo.config = Some(context);
            return Progress::Done(None);
        },
        Some(Some(full_ref)) => full_ref.clone(),
    };
    match &reads.upstream_oid {
        None => {
            if repo.reftable {
                Progress::Ask(
                    Slot::UpstreamOid,
                    Request::RevParse {
                        repo_root: repo.info.repo_root.clone(),
                        revision: full_ref,
                    },
                )
            } else {
                Progress::Ask(
                    Slot::UpstreamOid,
                    Request::RefOid {
                        git_common_dir: repo.info.git_common_dir.clone(),
                        full_ref,
                    },
                )
            }
        },
        Some(oid) => {
            repo.config = Some(context);
            Progress::Done(
                Some(
                    GitUpstreamIdentity {
                        remote: config.remote,
                        merge_ref: config.merge_ref,
                        full_ref,
                        oid: oid.clone(),
                    },
                ),
            )
        },
    }
}

/// Takes the fingerprint of a repository.
pub fn fingerprint(repo: RepoContext, include_upstream: bool, reads: &Reads) -> (progress: Progress<
    Option<GitStatusFingerprint>,
>)
    ensures
        reads::settles(
            progress,
            fingerprint_ask(repo.deep_view(), include_upstream, reads.deep_view()),
            fingerprint_value(repo.deep_view(), include_upstream, reads.deep_view()),
        ),
{
    let mut repository_context = repo;
    let head = match head::read_head_identity(
        &repository_context.info,
        repository_context.reftable,
        reads,
    ) {
        Progress::Ask(slot, request) => {
            return Progress::Ask(slot, request);
        },
        Progress::Done(None) => {
            return Progress::Done(None);
        },
        Progress::Done(Some(head)) => head,
    };
    let upstream = match &head {
        GitHeadIdentity::Branch { short_name, .. } => if include_upstream {
            match read_upstream(&mut repository_context, short_name, reads) {
                Progress::Ask(slot, request) => {
                    return Progress::Ask(slot, request);
                },
                Progress::Done(upstream) => upstream,
            }
        } else {
            None
        },
        GitHeadIdentity::Detached { .. } => None,
    };
    Progress::Done(Some(GitStatusFingerprint { head, upstream, repository_context }))
}

impl GitStatusFingerprint {
    /// The branch that `HEAD` is on, unless it is detached.
    pub fn branch_name(&self) -> (name: Option<&str>)
        ensures
            name.deep_view() == branch_value(self.deep_view()),
    {
        match &self.head {
            GitHeadIdentity::Branch { short_name, .. } => Some(short_name.as_str()),
            GitHeadIdentity::Detached { .. } => None,
        }
    }
}

/// The next question on the way to the full fingerprint of a directory's repository.
pub open spec fn git_status_fingerprint_ask(cwd: PathView, reads: ReadsView) -> Option<
    (Slot, RequestView),
> {
    if context::repo_context_ask(cwd, reads) is Some {
        context::repo_context_ask(cwd, reads)
    } else {
        match context::repo_context_value(reads) {
            None => None,
            Some(repo) => fingerprint_ask(repo, true, reads),
        }
    }
}

/// The full fingerprint of a directory's repository, where there is one.
pub open spec fn git_status_fingerprint_value(reads: ReadsView) -> Option<FingerprintView> {
    match context::repo_context_value(reads) {
        None => None,
        Some(repo) => fingerprint_value(repo, true, reads),
    }
}

/// Takes the fingerprint of a directory's repository, with the upstream of its branch.
pub fn git_status_fingerprint(cwd: &GitPath, reads: &Reads) -> (progress: Progress<
    Option<GitStatusFingerprint>,
>)
    ensures
        reads::settles(
            progress,
            git_status_fingerprint_ask(cwd.deep_view(), reads.deep_view()),
            git_status_fingerprint_value(reads.deep_view()),
        ),
{
    match context::repo_context(cwd, reads) {
        Progress::Ask(slot, request) => Progress::Ask(slot, request),
        Progress::Done(None) => Progress::Done(None),
        Progress::Done(Some(repo)) => fingerprint(repo, true, reads),
    }
}

} // verus!
