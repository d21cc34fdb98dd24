//! What views and recorded answers keep.

use crate::path::ComponentView;
use crate::path::GitFile;
use crate::path::GitPath;
use crate::path::PathComponent;
use crate::reads;
use crate::reads::Answer;
use crate::reads::AnswerView;
use crate::reads::ProcessOutput;
use crate::reads::Progress;
use crate::reads::Reads;
use crate::reads::ReadsView;
use crate::reads::Request;
use crate::reads::RequestView;
use crate::reads::Slot;
use crate::text::HeadTarget;
use crate::text::HeadTargetView;
use crate::types::ConfigCtx;
use crate::types::FileDep;
use crate::types::GitHeadIdentity;
use crate::types::GitSpaceMetadata;
use crate::types::GitStatusCacheEntry;
use crate::types::GitStatusFingerprint;
use crate::types::GitUpstreamIdentity;
use crate::types::GitWorktreeInfo;
use crate::types::HeadView;
use crate::types::Moment;
use crate::types::RepoContext;
use crate::types::UpstreamConfig;
use crate::types::WorkspaceGitStatusSnapshot;
use vstd::prelude::*;

verus! {

/// An operation that has come this far asks one question or has one result: it cannot settle
/// two different questions, nor two different results.
pub proof fn law_progress_settles_one_thing<T: DeepView>(
    progress: Progress<T>,
    ask: Option<(Slot, RequestView)>,
    value: T::V,
    other_ask: Option<(Slot, RequestView)>,
    other_value: T::V,
)
    ensures
        reads::settles(progress, ask, value) && reads::settles(progress, other_ask, other_value)
            ==> ask == other_ask && (ask is None ==> value == other_value),
        progress matches Progress::Ask(slot, request) ==> (reads::settles(progress, ask, value)
            <==> ask == Some((slot, request.deep_view()))),
        progress matches Progress::Done(result) ==> (reads::settles(progress, ask, value) <==> ask
            is None && result.deep_view() == value),
{
}

/// Each kind of answer goes into these slots and no others.
pub proof fn law_slots_of_an_answer(slot: Slot, answer: AnswerView)
    ensures
        ({
            let taken = reads::fits(slot, answer);
            &&& answer is Time ==> (taken <==> slot == Slot::Clock || slot == Slot::MissClock)
            &&& answer is Flag ==> (taken <==> slot == Slot::CachedDeps || slot == Slot::RefStorage
                || slot == Slot::RefStorageAgain || slot == Slot::FreshDeps || slot
                == Slot::ConfigDeps)
            &&& answer is Worktree ==> (taken <==> slot == Slot::Worktree || slot
                == Slot::WorktreeAgain)
            &&& answer is Stamp ==> (taken <==> slot == Slot::Stamp)
            &&& answer is Label ==> (taken <==> slot == Slot::FallbackLabel || slot
                == Slot::AutoLabel)
            &&& answer is Space ==> (taken <==> slot == Slot::Space)
            &&& answer is Text ==> (taken <==> slot == Slot::SymbolicHead || slot == Slot::HeadText
                || slot == Slot::HeadOid || slot == Slot::UpstreamRef || slot == Slot::UpstreamOid)
            &&& answer is Output ==> (taken <==> slot == Slot::Dirty)
            &&& answer is Config ==> (taken <==> slot == Slot::Config)
            &&& answer is Path ==> (taken <==> slot == Slot::Canonical)
        }),
{
}

/// Each kind of answer is called for by these questions and no others.
pub proof fn law_questions_of_an_answer(request: RequestView, answer: AnswerView)
    ensures
        ({
            let called_for = reads::answers(request, answer);
            &&& answer is Time ==> (called_for <==> request is Clock)
            &&& answer is Flag ==> (called_for <==> request is DepsCurrent || request is
                RefStorageIsReftable)
            &&& answer is Worktree ==> (called_for <==> request is WorktreeInfo)
            &&& answer is Stamp ==> (called_for <==> request is Stamp)
            &&& answer is Label ==> (called_for <==> request is FallbackLabel || request is
                AutomaticLabel)
            &&& answer is Space ==> (called_for <==> request is SpaceMetadata)
            &&& answer is Text ==> (called_for <==> request is SymbolicHead || request is RevParse
                || request is ReadText || request is RefOid || request is UpstreamFullRef)
            &&& answer is Output ==> (called_for <==> request is RunGit)
            &&& answer is Config ==> (called_for <==> request is ReadConfig)
            &&& answer is Path ==> (called_for <==> request is Canonicalize)
        }),
{
}

/// At the start nothing has been answered.
pub proof fn law_no_answers_at_the_start()
    ensures
        ({
            let none = reads::no_reads();
            &&& none.clock is None && none.cached_deps_current is None && none.worktree is None
            &&& none.reftable is None && none.deps.len() == 0 && none.worktree_again is None
            &&& none.reftable_again is None && none.deps_current is None
            &&& none.fallback_label is None && none.miss_clock is None && none.auto_label is None
            &&& none.space is None && none.symbolic_head is None && none.head_text is None
            &&& none.head_oid is None && none.dirty is None && none.config_deps_current is None
            &&& none.config is None && none.upstream_ref is None && none.upstream_oid is None
            &&& none.canonical is None
        }),
{
}

/// An answer that a slot does not take changes nothing.
pub proof fn law_unfit_answers_are_dropped(reads: ReadsView, slot: Slot, answer: AnswerView)
    ensures
        !reads::fits(slot, answer) ==> reads::recorded(reads, slot, answer) == reads,
{
}

/// A recorded answer can be read where its slot keeps it, and every other answer stays as it
/// was. A stamp is added behind those before it; any other answer replaces the one before it.
pub proof fn law_recorded_answers_are_kept(reads: ReadsView, slot: Slot, answer: AnswerView)
    requires
        reads::fits(slot, answer),
    ensures
        ({
            let after = reads::recorded(reads, slot, answer);
            &&& if slot == Slot::Clock {
                answer == AnswerView::Time(after.clock->0) && after.clock is Some
            } else {
                after.clock == reads.clock
            }
            &&& if slot == Slot::CachedDeps {
                answer == AnswerView::Flag(after.cached_deps_current->0)
                    && after.cached_deps_current is Some
            } else {
                after.cached_deps_current == reads.cached_deps_current
            }
            &&& if slot == Slot::Worktree {
                answer == AnswerView::Worktree(after.worktree->0) && after.worktree is Some
            } else {
                after.worktree == reads.worktree
            }
            &&& if slot == Slot::RefStorage {
                answer == AnswerView::Flag(after.reftable->0) && after.reftable is Some
            } else {
                after.reftable == reads.reftable
            }
            &&& if slot == Slot::Stamp {
                answer == AnswerView::Stamp(after.deps.last()) && after.deps.len()
                    == reads.deps.len() + 1 && after.deps.drop_last() == reads.deps
            } else {
                after.deps == reads.deps
            }
            &&& if slot == Slot::WorktreeAgain {
                answer == AnswerView::Worktree(after.worktree_again->0)
                    && after.worktree_again is Some
            } else {
                after.worktree_again == reads.worktree_again
            }
            &&& if slot == Slot::RefStorageAgain {
                answer == AnswerView::Flag(after.reftable_again->0) && after.reftable_again is Some
            } else {
                after.reftable_again == reads.reftable_again
            }
            &&& if slot == Slot::FreshDeps {
                answer == AnswerView::Flag(after.deps_current->0) && after.deps_current is Some
            } else {
                after.deps_current == reads.deps_current
            }
            &&& if slot == Slot::FallbackLabel {
                answer == AnswerView::Label(after.fallback_label->0) && after.fallback_label is Some
            } else {
                after.fallback_label == reads.fallback_label
            }
            &&& if slot == Slot::MissClock {
                answer == AnswerView::Time(after.miss_clock->0) && after.miss_clock is Some
            } else {
                after.miss_clock == reads.miss_clock
            }
            &&& if slot == Slot::AutoLabel {
                answer == AnswerView::Label(after.auto_label->0) && after.auto_label is Some
            } else {
                after.auto_label == reads.auto_label
            }
            &&& if slot == Slot::Space {
                answer == AnswerView::Space(after.space->0) && after.space is Some
            } else {
                after.space == reads.space
            }
            &&& if slot == Slot::SymbolicHead {
                answer == AnswerView::Text(after.symbolic_head->0) && after.symbolic_head is Some
            } else {
                after.symbolic_head == reads.symbolic_head
            }
            &&& if slot == Slot::HeadText {
                answer == AnswerView::Text(after.head_text->0) && after.head_text is Some
            } else {
                after.head_text == reads.head_text
            }
            &&& if slot == Slot::HeadOid {
                answer == AnswerView::Text(after.head_oid->0) && after.head_oid is Some
            } else {
                after.head_oid == reads.head_oid
            }
            &&& if slot == Slot::Dirty {
                answer == AnswerView::Output(after.dirty->0) && after.dirty is Some
            } else {
                after.dirty == reads.dirty
            }
            &&& if slot == Slot::ConfigDeps {
                answer == AnswerView::Flag(after.config_deps_current->0)
                    && after.config_deps_current is Some
            } else {
                after.config_deps_current == reads.config_deps_current
            }
            &&& if slot == Slot::Config {
                answer == AnswerView::Config(after.config->0) && after.config is Some
            } else {
                after.config == reads.config
            }
            &&& if slot == Slot::UpstreamRef {
                answer == AnswerView::Text(after.upstream_ref->0) && after.upstream_ref is Some
            } else {
                after.upstream_ref == reads.upstream_ref
            }
            &&& if slot == Slot::UpstreamOid {
                answer == AnswerView::Text(after.upstream_oid->0) && after.upstream_oid is Some
            } else {
                after.upstream_oid == reads.upstream_oid
            }
            &&& if slot == Slot::Canonical {
                answer == AnswerView::Path(after.canonical->0) && after.canonical is Some
            } else {
                after.canonical == reads.canonical
            }
        }),
{
}

/// The view of a path keeps its spelling and each of its components, and tells names apart from
/// the steps that have none.
pub proof fn law_view_of_a_path(path: GitPath, file: GitFile, i: int)
    ensures
        path.deep_view().spelling == path.spelling@,
        path.deep_view().components.len() == path.components.len(),
        0 <= i < path.components.len() ==> match (
            path.components[i],
            path.deep_view().components[i],
        ) {
            (PathComponent::Prefix(name), ComponentView::Prefix(seen)) => name@ == seen,
            (PathComponent::RootDir, ComponentView::RootDir) => true,
            (PathComponent::CurDir, ComponentView::CurDir) => true,
            (PathComponent::ParentDir, ComponentView::ParentDir) => true,
            (PathComponent::Normal(name), ComponentView::Normal(seen)) => name@ == seen,
            _ => false,
        },
        file.deep_view().dir == file.dir.deep_view(),
        file.deep_view().name == file.name@,
{
}

/// Paths are equal exactly where their components are, and checkouts exactly where their three
/// directories are equal paths.
pub proof fn law_equality_of_paths_and_checkouts(
    a: GitPath,
    b: GitPath,
    one: GitWorktreeInfo,
    other: GitWorktreeInfo,
)
    ensures
        vstd::std_specs::cmp::PartialEqSpec::eq_spec(&a, &b) <==> a.deep_view().components
            == b.deep_view().components,
        vstd::std_specs::cmp::PartialEqSpec::eq_spec(&one, &other) <==> {
            &&& one.repo_root.deep_view().components == other.repo_root.deep_view().components
            &&& one.git_dir.deep_view().components == other.git_dir.deep_view().components
            &&& one.git_common_dir.deep_view().components
                == other.git_common_dir.deep_view().components
        },
{
}

/// The views of what a repository is found with keep each part in its place.
pub proof fn law_view_of_a_context(
    info: GitWorktreeInfo,
    dep: FileDep,
    upstream: UpstreamConfig,
    config: ConfigCtx,
    context: RepoContext,
    i: int,
)
    ensures
        info.deep_view().repo_root == info.repo_root.deep_view(),
        info.deep_view().git_dir == info.git_dir.deep_view(),
        info.deep_view().git_common_dir == info.git_common_dir.deep_view(),
        dep.deep_view().path == dep.path.deep_view(),
        dep.deep_view().stamp == dep.stamp@,
        dep.deep_view().stable == dep.stable,
        upstream.deep_view().remote == upstream.remote@,
        upstream.deep_view().merge_ref == upstream.merge_ref@,
        config.deep_view().branch == config.branch@,
        config.deep_view().upstream == config.upstream.deep_view(),
        config.deep_view().deps.len() == config.deps.len(),
        0 <= i < config.deps.len() ==> config.deep_view().deps[i] == config.deps[i].deep_view(),
        context.deep_view().info == context.info.deep_view(),
        context.deep_view().reftable == context.reftable,
        context.deep_view().deps.len() == context.deps.len(),
        0 <= i < context.deps.len() ==> context.deep_view().deps[i] == context.deps[i].deep_view(),
        context.deep_view().config == context.config.deep_view(),
{
}

/// The views of what is found out about refs keep each part in its place.
pub proof fn law_view_of_a_fingerprint(
    head: GitHeadIdentity,
    target: HeadTarget,
    upstream: GitUpstreamIdentity,
    fingerprint: GitStatusFingerprint,
)
    ensures
        match (head, head.deep_view()) {
            (
                GitHeadIdentity::Branch { full_ref, short_name, oid },
                HeadView::Branch { full_ref: seen_ref, short_name: seen_name, oid: seen_oid },
            ) => seen_ref == full_ref@ && seen_name == short_name@ && seen_oid == oid.deep_view(),
            (GitHeadIdentity::Detached { oid }, HeadView::Detached { oid: seen }) => seen == oid@,
            _ => false,
        },
        match (target, target.deep_view()) {
            (
                HeadTarget::Branch { full_ref, short_name },
                HeadTargetView::Branch { full_ref: seen_ref, short_name: seen_name },
            ) => seen_ref == full_ref@ && seen_name == short_name@,
            (HeadTarget::OtherRef, HeadTargetView::OtherRef) => true,
            (HeadTarget::Commit { oid }, HeadTargetView::Commit { oid: seen }) => seen == oid@,
            (HeadTarget::Nothing, HeadTargetView::Nothing) => true,
            _ => false,
        },
        upstream.deep_view().remote == upstream.remote@,
        upstream.deep_view().merge_ref == upstream.merge_ref@,
        upstream.deep_view().full_ref == upstream.full_ref@,
        upstream.deep_view().oid == upstream.oid.deep_view(),
        fingerprint.deep_view().head == fingerprint.head.deep_view(),
        fingerprint.deep_view().upstream == fingerprint.upstream.deep_view(),
        fingerprint.deep_view().repository_context == fingerprint.repository_context.deep_view(),
{
}

/// The views of what a refresh shows and leaves behind keep each part in its place.
pub proof fn law_view_of_an_entry(
    moment: Moment,
    space: GitSpaceMetadata,
    snapshot: WorkspaceGitStatusSnapshot,
    entry: GitStatusCacheEntry,
)
    ensures
        moment.deep_view() == moment.nanos,
        space.deep_view() == space.repo_root.deep_view(),
        snapshot.deep_view().auto_label == snapshot.auto_label@,
        snapshot.deep_view().branch == snapshot.branch.deep_view(),
        snapshot.deep_view().space == snapshot.space.deep_view(),
        snapshot.deep_view().dirty == snapshot.dirty,
        entry.deep_view().fingerprint == entry.fingerprint.deep_view(),
        entry.deep_view().retry_after == entry.retry_after.deep_view(),
        entry.deep_view().snapshot == entry.snapshot.deep_view(),
{
}

/// The view of a question keeps what is asked and all that it is asked about.
pub proof fn law_view_of_a_question(request: Request)
    ensures
        match (request, request.deep_view()) {
            (Request::Clock, RequestView::Clock) => true,
            (Request::DepsCurrent { deps }, RequestView::DepsCurrent { deps: seen }) => seen
                == deps.deep_view(),
            (Request::WorktreeInfo { cwd }, RequestView::WorktreeInfo { cwd: seen }) => seen
                == cwd.deep_view(),
            (
                Request::RefStorageIsReftable { git_common_dir },
                RequestView::RefStorageIsReftable { git_common_dir: seen },
            ) => seen == git_common_dir.deep_view(),
            (Request::Stamp { file }, RequestView::Stamp { file: seen }) => seen
                == file.deep_view(),
            (Request::FallbackLabel { cwd }, RequestView::FallbackLabel { cwd: seen }) => seen
                == cwd.deep_view(),
            (
                Request::AutomaticLabel { cwd, repo_root },
                RequestView::AutomaticLabel { cwd: seen, repo_root: seen_root },
            ) => seen == cwd.deep_view() && seen_root == repo_root.deep_view(),
            (Request::SpaceMetadata { info }, RequestView::SpaceMetadata { info: seen }) => seen
                == info.deep_view(),
            (
                Request::SymbolicHead { repo_root },
                RequestView::SymbolicHead { repo_root: seen },
            ) => seen == repo_root.deep_view(),
            (
                Request::RevParse { repo_root, revision },
                RequestView::RevParse { repo_root: seen_root, revision: seen },
            ) => seen_root == repo_root.deep_view() && seen == revision@,
            (Request::ReadText { file }, RequestView::ReadText { file: seen }) => seen
                == file.deep_view(),
            (
                Request::RefOid { git_common_dir, full_ref },
                RequestView::RefOid { git_common_dir: seen_dir, full_ref: seen },
            ) => seen_dir == git_common_dir.deep_view() && seen == full_ref@,
            (
                Request::RunGit { dir, args },
                RequestView::RunGit { dir: seen_dir, args: seen },
            ) => seen_dir == dir.deep_view() && seen == args.deep_view(),
            (
                Request::ReadConfig { info, branch },
                RequestView::ReadConfig { info: seen_info, branch: seen },
            ) => seen_info == info.deep_view() && seen == branch@,
            (
                Request::UpstreamFullRef { config },
                RequestView::UpstreamFullRef { config: seen },
            ) => seen == config.deep_view(),
            (Request::Canonicalize { path }, RequestView::Canonicalize { path: seen }) => seen
                == path.deep_view(),
            _ => false,
        },
{
}

/// The view of an answer keeps its kind and what it says.
pub proof fn law_view_of_an_answer(answer: Answer, output: ProcessOutput)
    ensures
        match (answer, answer.deep_view()) {
            (Answer::Time(a), AnswerView::Time(seen)) => seen == a.nanos,
            (Answer::Flag(a), AnswerView::Flag(seen)) => seen == a,
            (Answer::Worktree(a), AnswerView::Worktree(seen)) => seen == a.deep_view(),
            (Answer::Stamp(a), AnswerView::Stamp(seen)) => seen == a.deep_view(),
            (Answer::Label(a), AnswerView::Label(seen)) => seen == a@,
            (Answer::Space(a), AnswerView::Space(seen)) => seen == a.deep_view(),
            (Answer::Text(a), AnswerView::Text(seen)) => seen == a.deep_view(),
            (Answer::Output(a), AnswerView::Output(seen)) => seen == a.deep_view(),
            (Answer::Config(a), AnswerView::Config(seen)) => seen == a.deep_view(),
            (Answer::Path(a), AnswerView::Path(seen)) => seen == a.deep_view(),
            _ => false,
        },
        output.deep_view().success == output.success,
        output.deep_view().stdout == output.stdout@,
{
}

/// The view of the answers so far keeps each in its slot.
pub proof fn law_view_of_the_answers(reads: Reads)
    ensures
        reads.deep_view().clock == reads.clock.deep_view(),
        reads.deep_view().cached_deps_current == reads.cached_deps_current,
        reads.deep_view().worktree == reads.worktree.deep_view(),
        reads.deep_view().reftable == reads.reftable,
        reads.deep_view().deps == reads.deps.deep_view(),
        reads.deep_view().worktree_again == reads.worktree_again.deep_view(),
        reads.deep_view().reftable_again == reads.reftable_again,
        reads.deep_view().deps_current == reads.deps_current,
        reads.deep_view().fallback_label == reads.fallback_label.deep_view(),
        reads.deep_view().miss_clock == reads.miss_clock.deep_view(),
        reads.deep_view().auto_label == reads.auto_label.deep_view(),
        reads.deep_view().space == reads.space.deep_view(),
        reads.deep_view().symbolic_head == reads.symbolic_head.deep_view(),
        reads.deep_view().head_text == reads.head_text.deep_view(),
        reads.deep_view().head_oid == reads.head_oid.deep_view(),
        reads.deep_view().dirty == reads.dirty.deep_view(),
        reads.deep_view().config_deps_current == reads.config_deps_current,
        reads.deep_view().config == reads.config.deep_view(),
        reads.deep_view().upstream_ref == reads.upstream_ref.deep_view(),
        reads.deep_view().upstream_oid == reads.upstream_oid.deep_view(),
        reads.deep_view().canonical == reads.canonical.deep_view(),
{
}

} // verus!
