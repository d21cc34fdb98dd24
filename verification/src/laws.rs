//! What holds of every refresh.

use crate::bytes;
use crate::context;
use crate::fingerprint;
use crate::head;
use crate::path;
use crate::path::PathView;
use crate::reads::ReadsView;
use crate::reads::RequestView;
use crate::reads::Slot;
use crate::status;
use crate::status::GitStatusRefreshDemand;
use crate::text;
use crate::text::HeadTargetView;
use crate::types::ContextView;
use crate::types::EntryView;
use crate::types::HeadView;
use crate::types::SnapshotView;
use crate::types::WorktreeView;
use vstd::prelude::*;

verus! {

/// A cached miss that still stands is handed back as it is, and nothing but the clock is
/// ever asked for.
pub proof fn law_standing_miss_is_reused(
    cwd: PathView,
    entry: EntryView,
    demand: GitStatusRefreshDemand,
    reads: ReadsView,
    deadline: nat,
    now: nat,
)
    requires
        entry.fingerprint is None,
        entry.retry_after == Some(deadline),
        now < deadline,
        reads.clock is None || reads.clock == Some(now),
    ensures
        status::status_ask(cwd, Some(entry), demand, reads) == if reads.clock is None {
            Some((Slot::Clock, RequestView::Clock))
        } else {
            None
        },
        reads.clock == Some(now) ==> status::status_value(Some(entry), demand, reads) == (
            entry.snapshot,
            Some(entry),
        ),
{
}

/// A cached miss whose time has come, or that never had one, is forgotten: the refresh goes on as if nothing had been
/// cached.
pub proof fn law_expired_miss_is_forgotten(
    cwd: PathView,
    entry: EntryView,
    demand: GitStatusRefreshDemand,
    reads: ReadsView,
    now: nat,
)
    requires
        entry.fingerprint is None,
        entry.retry_after matches Some(deadline) ==> deadline <= now && reads.clock == Some(now),
    ensures
        status::status_ask(cwd, Some(entry), demand, reads) == status::status_ask(
            cwd,
            None,
            demand,
            reads,
        ),
        status::status_value(Some(entry), demand, reads) == status::status_value(
            None,
            demand,
            reads,
        ),
{
}

/// A refresh that finds no repository shows a label and nothing more. Its entry makes every
/// refresh of the next thirty seconds show the same, and none after that.
pub proof fn law_miss_stands_for_the_retry_time(
    cwd: PathView,
    cached: Option<EntryView>,
    demand: GitStatusRefreshDemand,
    reads: ReadsView,
    found_at: nat,
    later_demand: GitStatusRefreshDemand,
    later_reads: ReadsView,
    now: nat,
)
    requires
        !status::still_stands(cached, reads),
        status::status_ask(cwd, cached, demand, reads) is None,
        status::current_context(cached, reads) is None,
        reads.miss_clock == Some(found_at),
        later_reads.clock == Some(now),
    ensures
        ({
            let (snapshot, entry) = status::status_value(cached, demand, reads);
            &&& snapshot == status::miss_snapshot(reads.fallback_label->0)
            &&& entry is Some
            &&& status::still_stands(entry, later_reads) <==> now < found_at + status::RETRY_NANOS
            &&& now < found_at + status::RETRY_NANOS ==> {
                &&& status::status_ask(cwd, entry, later_demand, later_reads) is None
                &&& status::status_value(entry, later_demand, later_reads) == (snapshot, entry)
            }
            &&& now >= found_at + status::RETRY_NANOS ==> {
                &&& status::status_ask(cwd, entry, later_demand, later_reads)
                    == status::status_ask(cwd, None, later_demand, later_reads)
                &&& status::status_value(entry, later_demand, later_reads)
                    == status::status_value(None, later_demand, later_reads)
            }
        }),
{
}

/// Where changes are not wanted, Git is not run to list them and none are shown.
pub proof fn law_unwanted_changes_are_not_counted(
    cwd: PathView,
    cached: Option<EntryView>,
    demand: GitStatusRefreshDemand,
    reads: ReadsView,
)
    requires
        !demand.dirty,
        !status::still_stands(cached, reads),
    ensures
        match status::status_ask(cwd, cached, demand, reads) {
            Some((slot, request)) => slot != Slot::Dirty && !(request is RunGit),
            None => true,
        },
        status::status_value(cached, demand, reads).0.dirty is None,
{
}

/// Where the branch is not wanted, none is shown.
pub proof fn law_unwanted_branch_is_not_shown(
    cached: Option<EntryView>,
    demand: GitStatusRefreshDemand,
    reads: ReadsView,
)
    requires
        !demand.branch,
        !status::still_stands(cached, reads),
    ensures
        status::status_value(cached, demand, reads).0.branch is None,
{
}

/// Whether the branch is wanted changes no question and nothing of the outcome but the branch
/// that is shown.
pub proof fn law_branch_demand_asks_nothing(
    cwd: PathView,
    cached: Option<EntryView>,
    dirty: bool,
    reads: ReadsView,
)
    ensures
        ({
            let with = GitStatusRefreshDemand { branch: true, dirty };
            let without = GitStatusRefreshDemand { branch: false, dirty };
            &&& status::status_ask(cwd, cached, with, reads) == status::status_ask(
                cwd,
                cached,
                without,
                reads,
            )
            &&& {
                let (shown, entry) = status::status_value(cached, with, reads);
                let (plain, plain_entry) = status::status_value(cached, without, reads);
                &&& shown == (SnapshotView { branch: shown.branch, ..plain })
                &&& match (entry, plain_entry) {
                    (Some(entry), Some(plain_entry)) => entry == (EntryView {
                        snapshot: shown,
                        ..plain_entry
                    }),
                    (None, None) => true,
                    _ => false,
                }
            }
        }),
{
}

/// Whether changes are wanted decides only whether they are asked for last, and changes nothing
/// of the outcome but the count that is shown.
pub proof fn law_dirty_demand_changes_only_the_count(
    cwd: PathView,
    cached: Option<EntryView>,
    branch: bool,
    reads: ReadsView,
)
    ensures
        ({
            let with = GitStatusRefreshDemand { branch, dirty: true };
            let without = GitStatusRefreshDemand { branch, dirty: false };
            let ask = status::status_ask(cwd, cached, with, reads);
            &&& status::status_ask(cwd, cached, without, reads) == match ask {
                Some((Slot::Dirty, _)) => None,
                _ => ask,
            }
            &&& {
                let (shown, entry) = status::status_value(cached, with, reads);
                let (plain, plain_entry) = status::status_value(cached, without, reads);
                &&& plain == (SnapshotView { dirty: plain.dirty, ..shown })
                &&& match (entry, plain_entry) {
                    (Some(entry), Some(plain_entry)) => plain_entry == (EntryView {
                        snapshot: plain,
                        ..entry
                    }),
                    (None, None) => true,
                    _ => false,
                }
            }
        }),
{
}

/// In a repository, wanted changes are always those that Git lists now: a cached count never
/// survives, even where everything else that is cached is still good.
pub proof fn law_changes_are_counted_anew(
    cwd: PathView,
    cached: Option<EntryView>,
    demand: GitStatusRefreshDemand,
    reads: ReadsView,
)
    requires
        demand.dirty,
        !status::still_stands(cached, reads),
        status::status_ask(cwd, cached, demand, reads) is None,
        status::current_context(cached, reads) is Some,
    ensures
        reads.dirty is Some,
        status::status_value(cached, demand, reads).0.dirty == status::dirty_value(reads),
{
}

/// Unless the entry is a miss that still stands, nothing that is cached has any influence on a
/// refresh but the context of a repository and the time of a miss: not the snapshot, not the
/// old `HEAD`, not the upstream, and for a repository not the retry time.
pub proof fn law_only_context_and_retry_time_are_consulted(
    cwd: PathView,
    one: EntryView,
    other: EntryView,
    demand: GitStatusRefreshDemand,
    reads: ReadsView,
)
    requires
        status::cached_context(Some(one)) == status::cached_context(Some(other)),
        one.fingerprint is None ==> one.retry_after == other.retry_after,
        !status::still_stands(Some(one), reads),
    ensures
        status::status_ask(cwd, Some(one), demand, reads) == status::status_ask(
            cwd,
            Some(other),
            demand,
            reads,
        ),
        status::status_value(Some(one), demand, reads) == status::status_value(
            Some(other),
            demand,
            reads,
        ),
{
}

/// The entry that a refresh leaves holds the snapshot that it shows.
pub proof fn law_entry_holds_the_snapshot(
    cached: Option<EntryView>,
    demand: GitStatusRefreshDemand,
    reads: ReadsView,
)
    ensures
        match status::status_value(cached, demand, reads) {
            (snapshot, Some(entry)) => entry.snapshot == snapshot,
            (_, None) => true,
        },
{
}

/// Whatever is cached, the entry that a refresh leaves has a fingerprint exactly where it has
/// no retry time.
pub proof fn law_entry_has_a_fingerprint_or_a_retry_time(
    cached: Option<EntryView>,
    demand: GitStatusRefreshDemand,
    reads: ReadsView,
)
    ensures
        status::status_value(cached, demand, reads).1 matches Some(entry) ==> (
        entry.fingerprint is Some <==> entry.retry_after is None),
{
}

/// Whether an entry is either a repository's or a miss, as far as its fields tell: a
/// fingerprint without a retry time and with a repository in the snapshot, or a retry time
/// with a bare label.
pub open spec fn well_kept(entry: EntryView) -> bool {
    match entry.fingerprint {
        Some(_) => entry.retry_after is None && entry.snapshot.space is Some,
        None => entry.retry_after is Some && entry.snapshot == status::miss_snapshot(
            entry.snapshot.auto_label,
        ),
    }
}

/// Refreshes leave well-kept entries, as long as they start from nothing or from such an
/// entry.
pub proof fn law_entries_stay_well_kept(
    cached: Option<EntryView>,
    demand: GitStatusRefreshDemand,
    reads: ReadsView,
)
    requires
        cached matches Some(entry) ==> well_kept(entry),
    ensures
        status::status_value(cached, demand, reads).1 matches Some(entry) ==> well_kept(entry),
{
}

/// A refresh leaves no entry exactly where it found a repository whose `HEAD` points at
/// nothing.
pub proof fn law_only_an_unreadable_head_is_not_cached(
    cached: Option<EntryView>,
    demand: GitStatusRefreshDemand,
    reads: ReadsView,
)
    ensures
        status::status_value(cached, demand, reads).1 is None <==> {
            &&& !status::still_stands(cached, reads)
            &&& status::current_context(cached, reads) matches Some(context)
            &&& head::head_value(context.reftable, reads) is None
        },
{
}

/// A repository is shown exactly where one was found.
pub proof fn law_space_is_shown_in_a_repository(
    cached: Option<EntryView>,
    demand: GitStatusRefreshDemand,
    reads: ReadsView,
)
    requires
        !status::still_stands(cached, reads),
    ensures
        status::status_value(cached, demand, reads).0.space is Some <==> status::current_context(
            cached,
            reads,
        ) is Some,
{
}

/// Whether a question is one of those that a new context takes.
pub open spec fn is_discovery(slot: Slot) -> bool {
    match slot {
        Slot::Worktree
        | Slot::RefStorage
        | Slot::Stamp
        | Slot::WorktreeAgain
        | Slot::RefStorageAgain
        | Slot::FreshDeps => true,
        _ => false,
    }
}

/// As long as the files behind a cached context are unchanged, the repository is not looked
/// for again, and the context is passed on as it is.
pub proof fn law_unchanged_context_is_kept(
    cwd: PathView,
    entry: EntryView,
    demand: GitStatusRefreshDemand,
    reads: ReadsView,
)
    requires
        entry.fingerprint is Some,
        reads.cached_deps_current == Some(true),
    ensures
        match status::status_ask(cwd, Some(entry), demand, reads) {
            Some((slot, _)) => !is_discovery(slot),
            None => true,
        },
        match status::status_value(Some(entry), demand, reads).1 {
            Some(next) => next.fingerprint matches Some(fingerprint)
                && fingerprint.repository_context == entry.fingerprint->0.repository_context,
            None => true,
        },
{
}

/// Once the files behind a cached context have changed, the refresh goes on as if nothing had
/// been cached.
pub proof fn law_changed_context_is_forgotten(
    cwd: PathView,
    entry: EntryView,
    demand: GitStatusRefreshDemand,
    reads: ReadsView,
)
    requires
        entry.fingerprint is Some,
        reads.cached_deps_current == Some(false),
    ensures
        status::status_ask(cwd, Some(entry), demand, reads) == status::status_ask(
            cwd,
            None,
            demand,
            reads,
        ),
        status::status_value(Some(entry), demand, reads) == status::status_value(
            None,
            demand,
            reads,
        ),
{
}

/// A refresh never asks about the upstream, and the fingerprint it takes holds none.
pub proof fn law_refresh_leaves_the_upstream_alone(
    cwd: PathView,
    cached: Option<EntryView>,
    demand: GitStatusRefreshDemand,
    reads: ReadsView,
)
    ensures
        match status::status_ask(cwd, cached, demand, reads) {
            Some((slot, _)) => slot != Slot::ConfigDeps && slot != Slot::Config && slot
                != Slot::UpstreamRef && slot != Slot::UpstreamOid,
            None => true,
        },
        match status::status_value(cached, demand, reads).1 {
            Some(entry) => match entry.fingerprint {
                Some(fingerprint) => fingerprint.upstream is None,
                None => true,
            },
            None => true,
        },
{
}

/// A context keeps the stamps of its files as they are exactly where nothing moved meanwhile;
/// otherwise its first file counts as unreliable from then on.
pub proof fn law_disturbed_context_is_unreliable(cwd: PathView, reads: ReadsView)
    requires
        context::repo_context_ask(cwd, reads) is None,
        reads.worktree->0 is Some,
    ensures
        context::repo_context_value(reads) matches Some(found) && {
            let info = reads.worktree->0->0;
            &&& context::undisturbed(info, reads) ==> found.deps == reads.deps
            &&& !context::undisturbed(info, reads) ==> !found.deps[0].stable
            &&& found.deps.len() == reads.deps.len()
            &&& forall|i: int| 0 < i < found.deps.len() ==> found.deps[i] == reads.deps[i]
        },
{
    let info = reads.worktree->0->0;
    let found = context::repo_context_value(reads)->0;
    if context::undisturbed(info, reads) {
        assert(found.deps =~= reads.deps);
    }
}

/// A linked checkout, whose own directory is not the shared one, depends on its own
/// configuration file besides the shared one.
pub proof fn law_linked_checkout_has_its_own_config(info: WorktreeView)
    ensures
        context::dependency_files(info).len() == if path::same_path(
            info.git_dir,
            info.git_common_dir,
        ) {
            4nat
        } else {
            5nat
        },
        !path::same_path(info.git_dir, info.git_common_dir) ==> context::dependency_files(
            info,
        ).last() == path::file_in(info.git_dir, "config"@),
{
}

/// The configuration that a context holds is asked about only for the branch it was read for;
/// for another branch the files are read anew.
pub proof fn law_another_branch_reads_the_configuration(
    repo: ContextView,
    branch: Seq<char>,
    reads: ReadsView,
)
    requires
        repo.config matches Some(config) ==> config.branch != branch,
    ensures
        reads.config is None ==> fingerprint::upstream_ask(repo, branch, reads) == Some(
            (Slot::Config, RequestView::ReadConfig { info: repo.info, branch }),
        ),
        fingerprint::config_value(repo, branch, reads) == reads.config->0,
{
}

/// As long as the files behind it are unchanged, the configuration that a context holds for a
/// branch is used without reading it again. Once they have changed, it is as if the context
/// held none.
pub proof fn law_held_configuration_is_reused(
    repo: ContextView,
    branch: Seq<char>,
    reads: ReadsView,
)
    requires
        fingerprint::holds_config(repo, branch),
        reads.config_deps_current is Some,
    ensures
        reads.config_deps_current == Some(true) ==> {
            &&& fingerprint::config_ask(repo, branch, reads) is None
            &&& fingerprint::config_value(repo, branch, reads) == repo.config->0
        },
        reads.config_deps_current == Some(false) ==> {
            let bare = ContextView { config: None, ..repo };
            &&& fingerprint::upstream_ask(repo, branch, reads) == fingerprint::upstream_ask(
                bare,
                branch,
                reads,
            )
            &&& fingerprint::upstream_value(repo, branch, reads) == fingerprint::upstream_value(
                bare,
                branch,
                reads,
            )
        },
{
}

/// The context of a full fingerprint on a branch holds the configuration that its upstream was
/// found with, and is otherwise the one that it was taken in.
pub proof fn law_full_fingerprint_holds_its_configuration(repo: ContextView, reads: ReadsView)
    ensures
        match fingerprint::fingerprint_value(repo, true, reads) {
            Some(taken) => match taken.head {
                HeadView::Branch { short_name, .. } => taken.repository_context == (ContextView {
                    config: Some(fingerprint::config_value(repo, short_name, reads)),
                    ..repo
                }),
                HeadView::Detached { .. } => taken.repository_context == repo && taken.upstream
                    is None,
            },
            None => true,
        },
{
}

/// White space around a text makes no difference to what it points at, however much of it
/// there is.
pub proof fn law_surrounding_white_space_is_ignored(
    before: Seq<char>,
    core: Seq<char>,
    after: Seq<char>,
)
    requires
        forall|i: int| 0 <= i < before.len() ==> text::is_white_space(#[trigger] before[i]),
        forall|i: int| 0 <= i < after.len() ==> text::is_white_space(#[trigger] after[i]),
    ensures
        text::trimmed(before + core + after) == text::trimmed(core),
        text::head_target(before + core + after) == text::head_target(core),
    decreases before.len() + after.len(),
{
    let whole = before + core + after;
    if before.len() > 0 {
        assert(whole.first() == before[0]);
        assert(whole.drop_first() =~= before.drop_first() + core + after);
        law_surrounding_white_space_is_ignored(before.drop_first(), core, after);
    } else if after.len() > 0 {
        let end = after.len() - 1;
        assert(whole.last() == after[end]);
        assert(whole.drop_last() =~= before + core + after.drop_last());
        lemma_trailing_white_space(whole);
        law_surrounding_white_space_is_ignored(before, core, after.drop_last());
    } else {
        assert(whole =~= core);
    }
}

/// White space at the end of a text can be dropped first, whatever stands at its start.
proof fn lemma_trailing_white_space(text: Seq<char>)
    requires
        text.len() > 0,
        text::is_white_space(text.last()),
    ensures
        text::trimmed(text) == text::trimmed(text.drop_last()),
    decreases text.len(),
{
    if text::is_white_space(text.first()) {
        let rest = text.drop_first();
        if rest.len() > 0 {
            assert(rest.last() == text.last());
            lemma_trailing_white_space(rest);
            assert(rest.drop_last() =~= text.drop_last().drop_first());
            assert(text.drop_last().first() == text.first());
        } else {
            assert(rest =~= text.drop_last());
        }
    }
}

/// What stands before the name of a branch in a `HEAD` file.
proof fn lemma_branch_prefix()
    ensures
        "ref: refs/heads/"@ == "ref: "@ + "refs/heads/"@,
{
    reveal_strlit("ref: refs/heads/");
    reveal_strlit("ref: ");
    reveal_strlit("refs/heads/");
    assert("ref: refs/heads/"@ =~= "ref: "@ + "refs/heads/"@);
}

/// A text points at a branch exactly where, white space at its ends aside, it is
/// `ref: refs/heads/` followed by the name of the branch.
pub proof fn law_head_text_names_its_branch(text: Seq<char>, name: Seq<char>)
    ensures
        text::head_target(text) == (HeadTargetView::Branch {
            full_ref: "refs/heads/"@ + name,
            short_name: name,
        }) <==> text::trimmed(text) == "ref: refs/heads/"@ + name,
{
    let head = text::trimmed(text);
    let line = "ref: refs/heads/"@ + name;
    let full_ref = "refs/heads/"@ + name;
    text::lemma_branch_in(name);
    lemma_branch_prefix();
    assert(line =~= "ref: "@ + full_ref);
    assert("ref: "@.is_prefix_of(line));
    assert(line.skip("ref: "@.len() as int) =~= full_ref);
    if "ref: "@.is_prefix_of(head) {
        assert(head =~= "ref: "@ + head.skip("ref: "@.len() as int));
    }
}

/// A text points at a commit exactly where, white space at its ends aside, it is not empty and
/// does not start with `ref: `. The commit is what it then spells.
pub proof fn law_other_head_text_is_a_commit(text: Seq<char>, oid: Seq<char>)
    ensures
        text::head_target(text) == (HeadTargetView::Commit { oid }) <==> {
            &&& text::trimmed(text) == oid
            &&& oid.len() > 0
            &&& !"ref: "@.is_prefix_of(oid)
        },
{
}

/// With refs in files, the branch that is shown is the one that the `HEAD` file names now,
/// whatever was cached and whatever commit it points at. Where the file names none, or cannot
/// be read, none is shown.
pub proof fn law_branch_follows_the_head_file(
    cached: Option<EntryView>,
    demand: GitStatusRefreshDemand,
    reads: ReadsView,
    head_text: Option<Seq<char>>,
)
    requires
        demand.branch,
        !status::still_stands(cached, reads),
        status::current_context(cached, reads) matches Some(context) && !context.reftable,
        reads.head_text == Some(head_text),
    ensures
        status::status_value(cached, demand, reads).0.branch == match head_text {
            Some(text) => text::after_prefix(text::trimmed(text), "ref: refs/heads/"@),
            None => None,
        },
{
    if let Some(text) = head_text {
        lemma_branch_prefix();
        text::lemma_after_prefix_in_two_steps(text::trimmed(text), "ref: "@, "refs/heads/"@);
    }
}

/// With refs in a reftable, the branch that is shown is the one that Git names now. Where Git
/// names no ref, or one that is no branch, none is shown.
pub proof fn law_branch_follows_git(
    cached: Option<EntryView>,
    demand: GitStatusRefreshDemand,
    reads: ReadsView,
    full_ref: Option<Seq<char>>,
)
    requires
        demand.branch,
        !status::still_stands(cached, reads),
        status::current_context(cached, reads) matches Some(context) && context.reftable,
        reads.symbolic_head == Some(full_ref),
    ensures
        status::status_value(cached, demand, reads).0.branch == match full_ref {
            Some(full_ref) => text::branch_in(full_ref),
            None => None,
        },
{
}

/// Reading `HEAD` through Git and through its file agree: where the text is `ref: ` and the
/// ref that Git names, the same commit gives the same identity.
pub proof fn law_both_ways_to_a_ref_agree(
    text: Seq<char>,
    full_ref: Seq<char>,
    oid: Option<Seq<char>>,
    from_git: ReadsView,
    from_files: ReadsView,
)
    requires
        text::trimmed(text) == "ref: "@ + full_ref,
        from_git.symbolic_head == Some(Some(full_ref)),
        from_git.head_oid == Some(oid),
        from_files.head_text == Some(Some(text)),
        from_files.head_oid == Some(oid),
    ensures
        head::head_value(true, from_git) == head::head_value(false, from_files),
        head::head_value(true, from_git) == match text::branch_in(full_ref) {
            Some(short_name) => Some(HeadView::Branch { full_ref, short_name, oid }),
            None => None,
        },
{
    let head = "ref: "@ + full_ref;
    assert("ref: "@.is_prefix_of(head));
    assert(head.skip("ref: "@.len() as int) =~= full_ref);
}

/// Reading a detached `HEAD` through Git and through its file agree: where the text is the
/// commit that Git names, both give that commit.
pub proof fn law_both_ways_to_a_commit_agree(
    text: Seq<char>,
    oid: Seq<char>,
    from_git: ReadsView,
    from_files: ReadsView,
)
    requires
        text::trimmed(text) == oid,
        oid.len() > 0,
        !"ref: "@.is_prefix_of(oid),
        from_git.symbolic_head == Some(None::<Seq<char>>),
        from_git.head_oid == Some(Some(oid)),
        from_files.head_text == Some(Some(text)),
    ensures
        head::head_value(true, from_git) == head::head_value(false, from_files),
        head::head_value(true, from_git) == Some(HeadView::Detached { oid }),
{
}

/// The key of a directory is the key of the repository that it lies in: both resolve the top
/// of the same checkout.
pub proof fn law_cache_keys_agree(cwd: PathView, repo_root: PathView, reads: ReadsView)
    requires
        reads.worktree matches Some(Some(info)) && info.repo_root == repo_root,
    ensures
        status::cache_key_ask(cwd, reads) == status::space_key_ask(repo_root, reads),
        status::cache_key_value(reads) == Some(status::space_key_value(reads)),
{
}

/// Each checkout has its own key: where two directories lie in different checkouts, different
/// paths are resolved.
pub proof fn law_cache_key_is_per_checkout(
    cwd: PathView,
    other_cwd: PathView,
    reads: ReadsView,
    other_reads: ReadsView,
)
    requires
        reads.worktree matches Some(Some(info)) && other_reads.worktree matches Some(Some(other))
            && info.repo_root != other.repo_root,
        reads.canonical is None,
        other_reads.canonical is None,
    ensures
        status::cache_key_ask(cwd, reads) is Some,
        status::cache_key_ask(cwd, reads) != status::cache_key_ask(other_cwd, other_reads),
{
}

/// Outside any checkout there is no key.
pub proof fn law_no_checkout_has_no_key(cwd: PathView, reads: ReadsView)
    requires
        reads.worktree == Some(None::<WorktreeView>),
    ensures
        status::cache_key_ask(cwd, reads) is None,
        status::cache_key_value(reads) is None,
{
}

/// Each entry that Git adds to its list, on a line of its own, counts as one change more.
pub proof fn law_each_entry_counts_once(list: Seq<u8>, entry: Seq<u8>)
    requires
        list.len() > 0 ==> list.last() == bytes::NEWLINE,
        entry.len() > 0,
        !entry.contains(bytes::NEWLINE),
    ensures
        bytes::nonempty_lines(list + entry.push(bytes::NEWLINE)).len() == bytes::nonempty_lines(
            list,
        ).len() + 1,
{
    lemma_entry_counts(list, entry);
    assert(list + entry.push(bytes::NEWLINE) =~= (list + entry).push(bytes::NEWLINE));
    bytes::lemma_nonempty_lines_push(list + entry, bytes::NEWLINE);
}

proof fn lemma_entry_counts(list: Seq<u8>, entry: Seq<u8>)
    requires
        list.len() > 0 ==> list.last() == bytes::NEWLINE,
        entry.len() > 0,
        !entry.contains(bytes::NEWLINE),
    ensures
        bytes::nonempty_lines(list + entry).len() == bytes::nonempty_lines(list).len() + 1,
        bytes::lines(list + entry).last().len() > 0,
    decreases entry.len(),
{
    let shorter = entry.drop_last();
    assert(entry.contains(entry.last()));
    assert(list + entry =~= (list + shorter).push(entry.last()));
    bytes::lemma_nonempty_lines_push(list + shorter, entry.last());
    if shorter.len() > 0 {
        assert forall|i: int| 0 <= i < shorter.len() implies shorter[i] != bytes::NEWLINE by {
            assert(entry.contains(entry[i]));
        }
        lemma_entry_counts(list, shorter);
    } else {
        assert(list + shorter =~= list);
        if list.len() > 0 {
            assert(list =~= list.drop_last().push(list.last()));
            bytes::lemma_nonempty_lines_push(list.drop_last(), list.last());
        }
    }
}

/// Being the same path is an equivalence.
pub proof fn law_same_path_is_an_equivalence(a: PathView, b: PathView, c: PathView)
    ensures
        path::same_path(a, a),
        path::same_path(a, b) ==> path::same_path(b, a),
        path::same_path(a, b) && path::same_path(b, c) ==> path::same_path(a, c),
{
}

} // verus!
