//! What each operation asks and gives, told by what it is given.

use crate::bytes;
use crate::context;
use crate::fingerprint;
use crate::head;
use crate::laws;
use crate::path;
use crate::path::PathView;
use crate::reads::OutputView;
use crate::reads::ReadsView;
use crate::reads::RequestView;
use crate::reads::Slot;
use crate::status;
use crate::status::GitStatusRefreshDemand;
use crate::text;
use crate::text::HeadTargetView;
use crate::types;
use crate::types::ConfigView;
use crate::types::ContextView;
use crate::types::EntryView;
use crate::types::FingerprintView;
use crate::types::HeadView;
use crate::types::SnapshotView;
use crate::types::UpstreamConfigView;
use crate::types::UpstreamView;
use crate::types::WorktreeView;
use vstd::prelude::*;

verus! {

// Lines.

/// Without any bytes there is nothing to count, and each further byte adds one to the number of
/// nonempty lines exactly where it starts one: it is no line end, and it stands first or right
/// after a line end.
pub proof fn law_a_line_counts_from_its_first_byte(s: Seq<u8>, byte: u8)
    ensures
        bytes::nonempty_lines(Seq::empty()).len() == 0,
        bytes::nonempty_lines(s.push(byte)).len() - bytes::nonempty_lines(s).len() == if byte
            != 0x0a && (s.len() == 0 || s.last() == 0x0a) {
            1int
        } else {
            0int
        },
{
    bytes::lemma_nonempty_lines_empty();
    bytes::lemma_nonempty_lines_push(s, byte);
    if s.len() > 0 {
        assert(s =~= s.drop_last().push(s.last()));
        bytes::lemma_nonempty_lines_push(s.drop_last(), s.last());
    }
}

/// Every line that is kept holds bytes, and none of them ends a line.
pub proof fn law_kept_lines_are_lines(s: Seq<u8>, i: int)
    requires
        0 <= i < bytes::nonempty_lines(s).len(),
    ensures
        bytes::nonempty_lines(s)[i].len() > 0,
        !bytes::nonempty_lines(s)[i].contains(0x0a),
{
    let keep = |line: Seq<u8>| line.len() > 0;
    let kept = bytes::lines(s).filter(keep);
    bytes::lines(s).lemma_filter_pred(keep, i);
    bytes::lines(s).lemma_filter_contains_rev(keep, kept[i]);
    let j = choose|j: int| 0 <= j < bytes::lines(s).len() && bytes::lines(s)[j] == kept[i];
    lemma_lines_hold_no_line_end(s, j);
}

proof fn lemma_lines_hold_no_line_end(s: Seq<u8>, i: int)
    requires
        0 <= i < bytes::lines(s).len(),
    ensures
        !bytes::lines(s)[i].contains(0x0a),
    decreases s.len(),
{
    if s.len() > 0 {
        let before = bytes::lines(s.drop_last());
        bytes::lemma_lines_exist(s.drop_last());
        if i < before.len() {
            lemma_lines_hold_no_line_end(s.drop_last(), i);
        }
        if s.last() != 0x0a && i == before.len() - 1 {
            let longer = before.last().push(s.last());
            assert forall|k: int| 0 <= k < longer.len() implies longer[k] != 0x0a by {
                if k < before.last().len() {
                    assert(before.last().contains(before.last()[k]));
                }
            }
        }
    }
}

/// After a successful run an empty list counts as no change, and the count grows by one with
/// each byte that starts a line and with no other, however long the list is. A refresh shows
/// that count.
pub proof fn law_changes_are_the_lines_of_the_list(
    cached: Option<EntryView>,
    demand: GitStatusRefreshDemand,
    reads: ReadsView,
    list: Seq<u8>,
    byte: u8,
)
    requires
        list.len() < usize::MAX,
    ensures
        ({
            let none = ReadsView {
                dirty: Some(Some(OutputView { success: true, stdout: Seq::empty() })),
                ..reads
            };
            let before = ReadsView {
                dirty: Some(Some(OutputView { success: true, stdout: list })),
                ..reads
            };
            let after = ReadsView {
                dirty: Some(Some(OutputView { success: true, stdout: list.push(byte) })),
                ..reads
            };
            &&& status::dirty_value(none) == Some(0usize)
            &&& status::dirty_value(before) is Some
            &&& status::dirty_value(after) is Some
            &&& status::dirty_value(after)->0 - status::dirty_value(before)->0 == if byte != 0x0a
                && (list.len() == 0 || list.last() == 0x0a) {
                1int
            } else {
                0int
            }
            &&& demand.dirty && !status::still_stands(cached, reads) && status::current_context(
                cached,
                reads,
            ) is Some ==> {
                &&& status::status_value(cached, demand, none).0.dirty == Some(0usize)
                &&& status::status_value(cached, demand, after).0.dirty is Some
                &&& status::status_value(cached, demand, before).0.dirty is Some
                &&& status::status_value(cached, demand, after).0.dirty->0 - status::status_value(
                    cached,
                    demand,
                    before,
                ).0.dirty->0 == if byte != 0x0a && (list.len() == 0 || list.last() == 0x0a) {
                    1int
                } else {
                    0int
                }
            }
        }),
{
    law_a_line_counts_from_its_first_byte(list, byte);
    bytes::lemma_nonempty_lines_bound(list);
    bytes::lemma_nonempty_lines_bound(list.push(byte));
}

/// Where the list grows by an entry on a line of its own, the count grows by one.
pub proof fn law_one_more_entry_is_one_more_change(
    reads: ReadsView,
    list: Seq<u8>,
    entry: Seq<u8>,
)
    requires
        list.len() + entry.len() < usize::MAX,
        list.len() > 0 ==> list.last() == 0x0a,
        entry.len() > 0,
        !entry.contains(0x0a),
    ensures
        ({
            let before = ReadsView {
                dirty: Some(Some(OutputView { success: true, stdout: list })),
                ..reads
            };
            let after = ReadsView {
                dirty: Some(
                    Some(OutputView { success: true, stdout: list + entry.push(0x0a) }),
                ),
                ..reads
            };
            &&& status::dirty_value(before) is Some
            &&& status::dirty_value(after) is Some
            &&& status::dirty_value(after)->0 == status::dirty_value(before)->0 + 1
        }),
{
    laws::law_each_entry_counts_once(list, entry);
    bytes::lemma_nonempty_lines_bound(list);
    bytes::lemma_nonempty_lines_bound(list + entry.push(0x0a));
}

/// Without a successful run there is no count: not where Git could not be started, and not
/// where it failed, whatever it printed.
pub proof fn law_no_successful_run_no_count(reads: ReadsView, stdout: Seq<u8>)
    ensures
        status::dirty_value(ReadsView { dirty: Some(None), ..reads }) is None,
        status::dirty_value(
            ReadsView { dirty: Some(Some(OutputView { success: false, stdout })), ..reads },
        ) is None,
{
}

/// Git is run in the directory itself, with these three arguments, and only once.
pub proof fn law_changes_are_listed_by_git(cwd: PathView, reads: ReadsView)
    ensures
        status::dirty_args().len() == 3,
        status::dirty_args()[0] == "--no-optional-locks"@,
        status::dirty_args()[1] == "status"@,
        status::dirty_args()[2] == "--porcelain"@,
        reads.dirty is Some <==> status::dirty_ask(cwd, reads) is None,
        reads.dirty is None ==> status::dirty_ask(cwd, reads) == Some(
            (Slot::Dirty, RequestView::RunGit { dir: cwd, args: status::dirty_args() }),
        ),
{
}

// Text.

/// These characters, and no others, count as white space.
pub proof fn law_white_space_characters(c: char)
    ensures
        text::is_white_space(c) <==> {
            ||| c == '\t'
            ||| c == '\n'
            ||| c == '\u{b}'
            ||| c == '\u{c}'
            ||| c == '\r'
            ||| c == ' '
            ||| c == '\u{85}'
            ||| c == '\u{a0}'
            ||| c == '\u{1680}'
            ||| '\u{2000}' <= c <= '\u{200a}'
            ||| c == '\u{2028}'
            ||| c == '\u{2029}'
            ||| c == '\u{202f}'
            ||| c == '\u{205f}'
            ||| c == '\u{3000}'
        },
{
}

/// A text with no white space at either end is its own trimmed text, whatever its length.
pub proof fn law_bare_text_is_kept(text: Seq<char>)
    requires
        text.len() > 0 ==> !text::is_white_space(text.first()) && !text::is_white_space(
            text.last(),
        ),
    ensures
        text::trimmed(text) == text,
{
}

/// Trimming gives back exactly the text between the white space at the two ends.
pub proof fn law_trimming_finds_the_core(before: Seq<char>, core: Seq<char>, after: Seq<char>)
    requires
        forall|i: int| 0 <= i < before.len() ==> text::is_white_space(#[trigger] before[i]),
        forall|i: int| 0 <= i < after.len() ==> text::is_white_space(#[trigger] after[i]),
        core.len() > 0 ==> !text::is_white_space(core.first()) && !text::is_white_space(
            core.last(),
        ),
    ensures
        text::trimmed(before + core + after) == core,
{
    laws::law_surrounding_white_space_is_ignored(before, core, after);
    law_bare_text_is_kept(core);
}

/// What is left after a prefix, put behind it again, is the text; and nothing is left exactly
/// where the text is no continuation of the prefix.
pub proof fn law_prefix_and_rest_make_the_text(
    text: Seq<char>,
    prefix: Seq<char>,
    rest: Seq<char>,
)
    ensures
        text::after_prefix(text, prefix) == Some(rest) <==> text == prefix + rest,
{
    if text == prefix + rest {
        assert(prefix.is_prefix_of(text));
        assert(text.skip(prefix.len() as int) =~= rest);
    }
    if text::after_prefix(text, prefix) == Some(rest) {
        assert(text =~= prefix + rest);
    }
}

/// A ref is that of a branch exactly where it is `refs/heads/` and the name of the branch.
pub proof fn law_branch_refs(full_ref: Seq<char>, name: Seq<char>)
    ensures
        text::branch_in(full_ref) == Some(name) <==> full_ref == "refs/heads/"@ + name,
{
    law_prefix_and_rest_make_the_text(full_ref, "refs/heads/"@, name);
}

/// The line `ref: refs/heads/` and a name, with its line end, points at the branch of that
/// name, however long the name is.
pub proof fn law_head_line_points_at_its_branch(name: Seq<char>)
    requires
        name.len() > 0 ==> !text::is_white_space(name.last()),
    ensures
        text::head_target("ref: refs/heads/"@ + name + seq!['\n']) == (HeadTargetView::Branch {
            full_ref: "refs/heads/"@ + name,
            short_name: name,
        }),
{
    let core = "ref: refs/heads/"@ + name;
    reveal_strlit("ref: refs/heads/");
    assert(core.first() == 'r');
    assert(name.len() == 0 ==> core.last() == '/');
    law_trimming_finds_the_core(Seq::empty(), core, seq!['\n']);
    assert(Seq::empty() + core + seq!['\n'] =~= core + seq!['\n']);
    laws::law_head_text_names_its_branch(core + seq!['\n'], name);
}

/// The line of a commit, with its line end, points at that commit.
pub proof fn law_commit_line_points_at_its_commit(oid: Seq<char>)
    requires
        oid.len() > 0,
        !text::is_white_space(oid.first()),
        !text::is_white_space(oid.last()),
        forall|rest: Seq<char>| oid != #[trigger] ("ref: "@ + rest),
    ensures
        text::head_target(oid + seq!['\n']) == (HeadTargetView::Commit { oid }),
{
    law_trimming_finds_the_core(Seq::empty(), oid, seq!['\n']);
    assert(Seq::empty() + oid + seq!['\n'] =~= oid + seq!['\n']);
    if "ref: "@.is_prefix_of(oid) {
        assert(oid =~= "ref: "@ + oid.skip("ref: "@.len() as int));
    }
}

/// A text points at a ref that is no branch exactly where, white space at its ends aside, it
/// starts with `ref: ` but not with `ref: refs/heads/`, and at nothing exactly where it is all
/// white space.
pub proof fn law_other_refs_and_blank_text(text: Seq<char>)
    ensures
        text::head_target(text) is OtherRef <==> {
            &&& exists|rest: Seq<char>| text::trimmed(text) == #[trigger] ("ref: "@ + rest)
            &&& forall|name: Seq<char>|
                text::trimmed(text) != #[trigger] ("ref: refs/heads/"@ + name)
        },
        text::head_target(text) is Nothing <==> text::trimmed(text).len() == 0,
{
    let head = text::trimmed(text);
    reveal_strlit("ref: ");
    match text::after_prefix(head, "ref: "@) {
        Some(full_ref) => {
            law_prefix_and_rest_make_the_text(head, "ref: "@, full_ref);
            match text::branch_in(full_ref) {
                Some(name) => {
                    law_branch_refs(full_ref, name);
                    laws::law_head_text_names_its_branch(text, name);
                },
                None => {
                    assert forall|name: Seq<char>| head != #[trigger] (
                    "ref: refs/heads/"@ + name) by {
                        laws::law_head_text_names_its_branch(text, name);
                    }
                },
            }
        },
        None => {
            assert forall|rest: Seq<char>| head != #[trigger] ("ref: "@ + rest) by {
                law_prefix_and_rest_make_the_text(head, "ref: "@, rest);
            }
        },
    }
}

// Paths.

/// Two paths are the same exactly where they have the same components in the same order; how
/// they are spelled does not matter.
pub proof fn law_same_paths(a: PathView, b: PathView)
    ensures
        path::same_path(a, b) <==> a.components.len() == b.components.len() && forall|i: int|
            0 <= i < a.components.len() ==> a.components[i] == b.components[i],
{
    if a.components.len() == b.components.len() && forall|i: int|
        0 <= i < a.components.len() ==> a.components[i] == b.components[i] {
        assert(a.components =~= b.components);
    }
}

/// Two descriptions are of the same checkout exactly where all three directories are the same.
pub proof fn law_same_checkouts(a: WorktreeView, b: WorktreeView)
    ensures
        types::same_worktree(a, b) <==> a.repo_root.components == b.repo_root.components
            && a.git_dir.components == b.git_dir.components && a.git_common_dir.components
            == b.git_common_dir.components,
{
}

/// A file in a directory is told by that directory and its name.
pub proof fn law_file_in_a_directory(dir: PathView, name: Seq<char>)
    ensures
        path::file_in(dir, name).dir == dir,
        path::file_in(dir, name).name == name,
{
}

// `HEAD`.

/// With refs in a reftable, Git is asked at the top of the checkout: first for the ref of
/// `HEAD`, and then for the commit of that ref if it is a branch, or of `HEAD` itself if there
/// is no ref.
pub proof fn law_git_is_asked_for_head(
    info: WorktreeView,
    reads: ReadsView,
    full_ref: Seq<char>,
    name: Seq<char>,
)
    ensures
        reads.symbolic_head is None ==> head::head_ask(info, true, reads) == Some(
            (Slot::SymbolicHead, RequestView::SymbolicHead { repo_root: info.repo_root }),
        ),
        reads.symbolic_head == Some(Some("refs/heads/"@ + name)) && reads.head_oid is None
            ==> head::head_ask(info, true, reads) == Some(
            (
                Slot::HeadOid,
                RequestView::RevParse {
                    repo_root: info.repo_root,
                    revision: "refs/heads/"@ + name,
                },
            ),
        ),
        reads.symbolic_head == Some(None::<Seq<char>>) && reads.head_oid is None
            ==> head::head_ask(info, true, reads) == Some(
            (
                Slot::HeadOid,
                RequestView::RevParse { repo_root: info.repo_root, revision: "HEAD"@ },
            ),
        ),
        reads.symbolic_head == Some(Some(full_ref)) && text::branch_in(full_ref) is None
            ==> head::head_ask(info, true, reads) is None,
        reads.symbolic_head is Some && reads.head_oid is Some ==> head::head_ask(
            info,
            true,
            reads,
        ) is None,
{
    law_branch_refs("refs/heads/"@ + name, name);
}

/// With refs in a reftable, `HEAD` is the branch that Git names with the commit that Git gives,
/// or the commit alone where Git names no ref, and otherwise nothing.
pub proof fn law_head_is_what_git_answers(
    reads: ReadsView,
    full_ref: Seq<char>,
    name: Seq<char>,
    oid: Option<Seq<char>>,
)
    ensures
        reads.symbolic_head == Some(Some("refs/heads/"@ + name)) && reads.head_oid == Some(oid)
            ==> head::head_value(true, reads) == Some(
            HeadView::Branch { full_ref: "refs/heads/"@ + name, short_name: name, oid },
        ),
        reads.symbolic_head == Some(Some(full_ref)) && text::branch_in(full_ref) is None
            ==> head::head_value(true, reads) is None,
        reads.symbolic_head == Some(None::<Seq<char>>) && reads.head_oid == Some(oid)
            ==> head::head_value(true, reads) == match oid {
            Some(oid) => Some(HeadView::Detached { oid }),
            None => None,
        },
{
    law_branch_refs("refs/heads/"@ + name, name);
}

/// With refs in files, the `HEAD` file of the checkout's own directory is read, and if it names
/// a branch, that branch is looked up in the shared directory. Nothing else is asked.
pub proof fn law_files_are_asked_for_head(
    info: WorktreeView,
    reads: ReadsView,
    text: Seq<char>,
    name: Seq<char>,
)
    ensures
        reads.head_text is None ==> head::head_ask(info, false, reads) == Some(
            (
                Slot::HeadText,
                RequestView::ReadText {
                    file: (path::FileView { dir: info.git_dir, name: "HEAD"@ }),
                },
            ),
        ),
        reads.head_text == Some(Some(text)) && text::trimmed(text) == "ref: refs/heads/"@ + name
            && reads.head_oid is None ==> head::head_ask(info, false, reads) == Some(
            (
                Slot::HeadOid,
                RequestView::RefOid {
                    git_common_dir: info.git_common_dir,
                    full_ref: "refs/heads/"@ + name,
                },
            ),
        ),
        reads.head_text == Some(Some(text)) && !(text::head_target(text) is Branch)
            ==> head::head_ask(info, false, reads) is None,
        reads.head_text == Some(None::<Seq<char>>) ==> head::head_ask(info, false, reads) is None,
        reads.head_text is Some && reads.head_oid is Some ==> head::head_ask(
            info,
            false,
            reads,
        ) is None,
{
    laws::law_head_text_names_its_branch(text, name);
}

/// With refs in files, `HEAD` is the branch that its file names with the commit that was looked
/// up, or the commit that the file spells, and otherwise nothing.
pub proof fn law_head_is_what_its_file_says(
    reads: ReadsView,
    text: Seq<char>,
    name: Seq<char>,
    oid: Option<Seq<char>>,
)
    ensures
        reads.head_text == Some(Some(text)) && text::trimmed(text) == "ref: refs/heads/"@ + name
            && reads.head_oid == Some(oid) ==> head::head_value(false, reads) == Some(
            HeadView::Branch { full_ref: "refs/heads/"@ + name, short_name: name, oid },
        ),
        reads.head_text == Some(None::<Seq<char>>) ==> head::head_value(false, reads) is None,
{
    laws::law_head_text_names_its_branch(text, name);
}

/// With refs in files, what a `HEAD` file without a branch says needs no commit looked up: it is
/// the commit that the text spells, or nothing.
pub proof fn law_head_without_a_branch_is_its_text(reads: ReadsView, text: Seq<char>)
    requires
        reads.head_text == Some(Some(text)),
        forall|name: Seq<char>| text::trimmed(text) != #[trigger] ("ref: refs/heads/"@ + name),
    ensures
        ({
            let head = text::trimmed(text);
            head::head_value(false, reads) == if head.len() > 0 && !"ref: "@.is_prefix_of(head) {
                Some(HeadView::Detached { oid: head })
            } else {
                None
            }
        }),
{
    law_other_refs_and_blank_text(text);
    if let HeadTargetView::Branch { full_ref, short_name } = text::head_target(text) {
        law_branch_refs(full_ref, short_name);
        laws::law_head_text_names_its_branch(text, short_name);
    }
}

/// The two ways to `HEAD` are told apart by how refs are kept, and by nothing else.
pub proof fn law_refs_are_read_as_they_are_kept(info: WorktreeView, reads: ReadsView)
    ensures
        head::head_ask(info, true, reads) == head::head_from_git_ask(info, reads),
        head::head_value(true, reads) == head::head_from_git(reads),
        head::head_ask(info, false, reads) == head::head_from_files_ask(info, reads),
        head::head_value(false, reads) == head::head_from_files(reads),
{
}

// Contexts.

/// A context depends on these files: the marker at the top of the checkout, two files in the
/// checkout's own directory, the shared configuration, and where the two directories differ
/// also the checkout's own configuration.
pub proof fn law_files_of_a_context(info: WorktreeView)
    ensures
        ({
            let files = context::dependency_files(info);
            let linked = info.git_dir.components != info.git_common_dir.components;
            &&& files.len() == if linked { 5int } else { 4int }
            &&& files[0].dir == info.repo_root && files[0].name == ".git"@
            &&& files[1].dir == info.git_dir && files[1].name == "commondir"@
            &&& files[2].dir == info.git_dir && files[2].name == "HEAD"@
            &&& files[3].dir == info.git_common_dir && files[3].name == "config"@
            &&& linked ==> files[4].dir == info.git_dir && files[4].name == "config"@
        }),
{
}

/// A context is looked for from the directory itself; how refs are kept is asked of the shared
/// directory; then each file of the context is stamped in turn; and then the same three things
/// are asked again, as long as nothing has changed.
pub proof fn law_context_questions(cwd: PathView, reads: ReadsView, info: WorktreeView)
    ensures
        reads.worktree is None ==> context::repo_context_ask(cwd, reads) == Some(
            (Slot::Worktree, RequestView::WorktreeInfo { cwd }),
        ),
        reads.worktree == Some(None::<WorktreeView>) ==> context::repo_context_ask(
            cwd,
            reads,
        ) is None,
        reads.worktree == Some(Some(info)) ==> {
            let files = context::dependency_files(info);
            let ask = context::repo_context_ask(cwd, reads);
            let stamped = reads.reftable is Some && reads.deps.len() >= files.len();
            let again = stamped && (reads.worktree_again matches Some(Some(other))
                && types::same_worktree(other, info));
            &&& reads.reftable is None ==> ask == Some(
                (
                    Slot::RefStorage,
                    RequestView::RefStorageIsReftable { git_common_dir: info.git_common_dir },
                ),
            )
            &&& reads.reftable is Some && reads.deps.len() < files.len() ==> ask == Some(
                (Slot::Stamp, RequestView::Stamp { file: files[reads.deps.len() as int] }),
            )
            &&& stamped && reads.worktree_again is None ==> ask == Some(
                (Slot::WorktreeAgain, RequestView::WorktreeInfo { cwd }),
            )
            &&& stamped && reads.worktree_again is Some && !again ==> ask is None
            &&& again && reads.reftable_again is None ==> ask == Some(
                (
                    Slot::RefStorageAgain,
                    RequestView::RefStorageIsReftable { git_common_dir: info.git_common_dir },
                ),
            )
            &&& again && reads.reftable_again is Some && reads.reftable_again != reads.reftable
                ==> ask is None
            &&& again && reads.reftable_again == reads.reftable && reads.deps_current is None
                ==> ask == Some((Slot::FreshDeps, RequestView::DepsCurrent { deps: reads.deps }))
            &&& again && reads.reftable_again == reads.reftable && reads.deps_current is Some
                ==> ask is None
        },
{
}

/// A new context is the checkout that was found, the way its refs are kept and the stamps of
/// its files, without any configuration. The first file stays reliable exactly where it was and
/// the second look found the same checkout, the same way of keeping refs and unchanged files.
pub proof fn law_context_is_what_was_found(cwd: PathView, reads: ReadsView, info: WorktreeView)
    requires
        reads.worktree == Some(Some(info)),
        context::repo_context_ask(cwd, reads) is None,
    ensures
        context::repo_context_value(reads) matches Some(found) && {
            &&& found.info == info
            &&& Some(found.reftable) == reads.reftable
            &&& found.config is None
            &&& found.deps.len() == reads.deps.len()
            &&& forall|i: int| 0 < i < reads.deps.len() ==> found.deps[i] == reads.deps[i]
            &&& found.deps[0].path == reads.deps[0].path
            &&& found.deps[0].stamp == reads.deps[0].stamp
            &&& found.deps[0].stable <==> {
                &&& reads.deps[0].stable
                &&& reads.worktree_again matches Some(Some(again)) && types::same_worktree(
                    again,
                    info,
                )
                &&& reads.reftable_again == reads.reftable
                &&& reads.deps_current == Some(true)
            }
        },
{
}

/// Where there is no checkout there is no context.
pub proof fn law_no_checkout_no_context(reads: ReadsView)
    requires
        reads.worktree == Some(None::<WorktreeView>),
    ensures
        context::repo_context_value(reads) is None,
{
}

// Upstreams.

/// The commit of a known upstream ref is asked for at once and for exactly that ref: in the
/// shared directory of the repository where refs are in files, and of Git at the top of the
/// checkout where they are in a reftable. Once it is known nothing more is asked.
pub proof fn law_upstream_commit_is_looked_up_in_the_repository(
    repo: ContextView,
    branch: Seq<char>,
    reads: ReadsView,
    full_ref: Seq<char>,
)
    requires
        fingerprint::config_ask(repo, branch, reads) is None,
        fingerprint::config_value(repo, branch, reads).upstream is Some,
        reads.upstream_ref == Some(Some(full_ref)),
    ensures
        reads.upstream_oid is Some ==> fingerprint::upstream_ask(repo, branch, reads) is None,
        reads.upstream_oid is None && !repo.reftable ==> fingerprint::upstream_ask(
            repo,
            branch,
            reads,
        ) == Some(
            (
                Slot::UpstreamOid,
                RequestView::RefOid { git_common_dir: repo.info.git_common_dir, full_ref },
            ),
        ),
        reads.upstream_oid is None && repo.reftable ==> fingerprint::upstream_ask(
            repo,
            branch,
            reads,
        ) == Some(
            (
                Slot::UpstreamOid,
                RequestView::RevParse { repo_root: repo.info.repo_root, revision: full_ref },
            ),
        ),
{
}

/// Two linked checkouts of one repository, with refs in files, ask the same question for the
/// same upstream ref, whatever their own directories are.
pub proof fn law_linked_checkouts_share_their_upstreams(
    one: ContextView,
    other: ContextView,
    branch: Seq<char>,
    other_branch: Seq<char>,
    reads: ReadsView,
    full_ref: Seq<char>,
)
    requires
        one.info.git_common_dir == other.info.git_common_dir,
        !one.reftable,
        !other.reftable,
        fingerprint::config_ask(one, branch, reads) is None,
        fingerprint::config_value(one, branch, reads).upstream is Some,
        fingerprint::config_ask(other, other_branch, reads) is None,
        fingerprint::config_value(other, other_branch, reads).upstream is Some,
        reads.upstream_ref == Some(Some(full_ref)),
        reads.upstream_oid is None,
    ensures
        fingerprint::upstream_ask(one, branch, reads) is Some,
        fingerprint::upstream_ask(one, branch, reads) == fingerprint::upstream_ask(
            other,
            other_branch,
            reads,
        ),
        fingerprint::oid_request(one, full_ref) == (RequestView::RefOid {
            git_common_dir: other.info.git_common_dir,
            full_ref,
        }),
{
}

/// What a context holds about a branch is asked about with the files it came from; where it
/// holds nothing about it, or the files have changed, the configuration is read for that
/// checkout and that branch, once.
pub proof fn law_configuration_questions(
    repo: ContextView,
    branch: Seq<char>,
    reads: ReadsView,
    held: ConfigView,
)
    ensures
        ({
            let ask = fingerprint::config_ask(repo, branch, reads);
            let holds = repo.config == Some(held) && held.branch == branch;
            let read = Some((Slot::Config, RequestView::ReadConfig { info: repo.info, branch }));
            &&& holds && reads.config_deps_current is None ==> ask == Some(
                (Slot::ConfigDeps, RequestView::DepsCurrent { deps: held.deps }),
            )
            &&& holds && reads.config_deps_current == Some(true) ==> ask is None
            &&& holds && reads.config_deps_current == Some(false) ==> ask == if reads.config
                is None {
                read
            } else {
                None
            }
            &&& repo.config == Some(held) && held.branch != branch ==> ask == if reads.config
                is None {
                read
            } else {
                None
            }
            &&& repo.config is None ==> ask == if reads.config is None {
                read
            } else {
                None
            }
        }),
{
}

/// The configuration that counts is the one held for the branch as long as its files are
/// unchanged, and otherwise the one that was read.
pub proof fn law_configuration_that_counts(
    repo: ContextView,
    branch: Seq<char>,
    reads: ReadsView,
    held: ConfigView,
    read: ConfigView,
)
    ensures
        ({
            let counts = fingerprint::config_value(repo, branch, reads);
            let holds = repo.config == Some(held) && held.branch == branch;
            &&& holds && reads.config_deps_current == Some(true) ==> counts == held
            &&& reads.config == Some(read) ==> {
                &&& holds && reads.config_deps_current == Some(false) ==> counts == read
                &&& repo.config == Some(held) && held.branch != branch ==> counts == read
                &&& repo.config is None ==> counts == read
            }
        }),
{
}

/// Before its commit, the ref of an upstream is asked for, with the configured remote and merge
/// ref; and before that the configuration is settled. A branch without an upstream, or whose
/// upstream no ref follows, needs nothing more and has none.
pub proof fn law_upstream_questions(
    repo: ContextView,
    branch: Seq<char>,
    reads: ReadsView,
    config: UpstreamConfigView,
)
    ensures
        ({
            let settled = fingerprint::config_ask(repo, branch, reads) is None;
            let configured = fingerprint::config_value(repo, branch, reads).upstream;
            let ask = fingerprint::upstream_ask(repo, branch, reads);
            let value = fingerprint::upstream_value(repo, branch, reads);
            &&& !settled ==> ask == fingerprint::config_ask(repo, branch, reads)
            &&& settled && configured is None ==> ask is None
            &&& configured is None ==> value is None
            &&& settled && configured == Some(config) && reads.upstream_ref is None ==> ask
                == Some((Slot::UpstreamRef, RequestView::UpstreamFullRef { config }))
            &&& settled && reads.upstream_ref == Some(None::<Seq<char>>) ==> ask is None
            &&& reads.upstream_ref == Some(None::<Seq<char>>) ==> value is None
        }),
{
}

/// A found upstream is the configured remote and merge ref, the ref that follows them and the
/// commit that was looked up, each in its place.
pub proof fn law_upstream_is_what_was_found(
    repo: ContextView,
    branch: Seq<char>,
    reads: ReadsView,
    remote: Seq<char>,
    merge_ref: Seq<char>,
    full_ref: Seq<char>,
    oid: Option<Seq<char>>,
)
    requires
        fingerprint::config_value(repo, branch, reads).upstream == Some(
            UpstreamConfigView { remote, merge_ref },
        ),
        reads.upstream_ref == Some(Some(full_ref)),
        reads.upstream_oid == Some(oid),
    ensures
        fingerprint::upstream_value(repo, branch, reads) == Some(
            UpstreamView { remote, merge_ref, full_ref, oid },
        ),
{
}

// Fingerprints.

/// A fingerprint asks what `HEAD` asks, and then, only on a branch and only if it is wanted,
/// what the upstream of that branch asks.
pub proof fn law_fingerprint_questions(
    repo: ContextView,
    reads: ReadsView,
    include_upstream: bool,
    full_ref: Seq<char>,
    name: Seq<char>,
    oid: Option<Seq<char>>,
)
    ensures
        ({
            let head = head::head_ask(repo.info, repo.reftable, reads);
            let ask = fingerprint::fingerprint_ask(repo, include_upstream, reads);
            let found = head::head_value(repo.reftable, reads);
            &&& head is Some ==> ask == head
            &&& head is None && !include_upstream ==> ask is None
            &&& head is None && !(found matches Some(HeadView::Branch { .. })) ==> ask is None
            &&& head is None && include_upstream && found == Some(
                HeadView::Branch { full_ref, short_name: name, oid },
            ) ==> ask == fingerprint::upstream_ask(repo, name, reads)
        }),
{
}

/// There is a fingerprint exactly where `HEAD` points at something. It holds that, the upstream
/// of the branch where that is wanted, and the context, with the configuration that was used.
pub proof fn law_fingerprint_is_head_and_upstream(
    repo: ContextView,
    reads: ReadsView,
    include_upstream: bool,
    found: HeadView,
    full_ref: Seq<char>,
    name: Seq<char>,
    oid: Option<Seq<char>>,
)
    ensures
        ({
            let taken = fingerprint::fingerprint_value(repo, include_upstream, reads);
            let head = head::head_value(repo.reftable, reads);
            let on_branch = HeadView::Branch { full_ref, short_name: name, oid };
            &&& taken is Some <==> head is Some
            &&& head == Some(found) ==> taken->0.head == found
            &&& head is Some ==> {
                let context = taken->0.repository_context;
                &&& context.info == repo.info
                &&& context.reftable == repo.reftable
                &&& context.deps == repo.deps
            }
            &&& head is Some && (!include_upstream || head->0 is Detached)
                ==> taken->0.upstream is None && taken->0.repository_context == repo
            &&& include_upstream && head == Some(on_branch) ==> {
                &&& taken->0.upstream == fingerprint::upstream_value(repo, name, reads)
                &&& taken->0.repository_context.config == Some(
                    fingerprint::config_value(repo, name, reads),
                )
            }
        }),
{
}

/// The branch of a fingerprint is the short name that its `HEAD` holds, and a detached `HEAD`
/// has none.
pub proof fn law_branch_of_a_fingerprint(
    taken: FingerprintView,
    full_ref: Seq<char>,
    name: Seq<char>,
    oid: Option<Seq<char>>,
    commit: Seq<char>,
)
    ensures
        taken.head == (HeadView::Branch { full_ref, short_name: name, oid })
            ==> fingerprint::branch_value(taken) == Some(name),
        taken.head == (HeadView::Detached { oid: commit }) ==> fingerprint::branch_value(
            taken,
        ) is None,
{
}

/// A full fingerprint asks what a new context asks and then, with the upstream wanted, what a
/// fingerprint in that context asks. Outside any checkout there is none.
pub proof fn law_full_fingerprint(cwd: PathView, reads: ReadsView, repo: ContextView)
    ensures
        ({
            let context_ask = context::repo_context_ask(cwd, reads);
            let found = context::repo_context_value(reads);
            let ask = fingerprint::git_status_fingerprint_ask(cwd, reads);
            let value = fingerprint::git_status_fingerprint_value(reads);
            &&& context_ask is Some ==> ask == context_ask
            &&& context_ask is None && found is None ==> ask is None
            &&& found is None ==> value is None
            &&& context_ask is None && found == Some(repo) ==> ask == fingerprint::fingerprint_ask(
                repo,
                true,
                reads,
            )
            &&& found == Some(repo) ==> value == fingerprint::fingerprint_value(repo, true, reads)
        }),
{
}

/// Whenever a full fingerprint asks for the commit of the upstream, it is that of the ref that
/// was answered to follow it, in the repository of the checkout that was found: in its shared
/// directory where refs are in files, and at the top of the checkout where they are in a
/// reftable.
pub proof fn law_full_fingerprint_looks_in_the_repository_found(
    cwd: PathView,
    reads: ReadsView,
    request: RequestView,
)
    requires
        fingerprint::git_status_fingerprint_ask(cwd, reads) == Some((Slot::UpstreamOid, request)),
    ensures
        reads.worktree matches Some(Some(info)) && reads.upstream_ref matches Some(Some(full_ref))
            && {
            &&& reads.reftable == Some(false) ==> request == (RequestView::RefOid {
                git_common_dir: info.git_common_dir,
                full_ref,
            })
            &&& reads.reftable == Some(true) ==> request == (RequestView::RevParse {
                repo_root: info.repo_root,
                revision: full_ref,
            })
            &&& reads.reftable is Some
        },
{
}

// Cache keys.

/// The key of a directory in a checkout is the path that the resolution of the top of the
/// checkout was answered with, and so is that of the repository. Until there is such an answer,
/// exactly the top of the checkout is asked to be resolved.
pub proof fn law_key_is_the_resolved_path(
    cwd: PathView,
    reads: ReadsView,
    info: WorktreeView,
    p: PathView,
)
    ensures
        reads.worktree is None ==> status::cache_key_ask(cwd, reads) == Some(
            (Slot::Worktree, RequestView::WorktreeInfo { cwd }),
        ),
        reads.worktree == Some(Some(info)) && reads.canonical is None ==> status::cache_key_ask(
            cwd,
            reads,
        ) == Some((Slot::Canonical, RequestView::Canonicalize { path: info.repo_root })),
        reads.worktree == Some(Some(info)) && reads.canonical == Some(p) ==> {
            &&& status::cache_key_ask(cwd, reads) is None
            &&& status::cache_key_value(reads) == Some(p)
        },
        reads.worktree == Some(None::<WorktreeView>) ==> {
            &&& status::cache_key_ask(cwd, reads) is None
            &&& status::cache_key_value(reads) is None
        },
{
}

/// The key of a repository is the path that the resolution of its top was answered with,
/// whatever else has been answered.
pub proof fn law_space_key_is_the_resolved_path(repo_root: PathView, reads: ReadsView, p: PathView)
    ensures
        reads.canonical is None ==> status::space_key_ask(repo_root, reads) == Some(
            (Slot::Canonical, RequestView::Canonicalize { path: repo_root }),
        ),
        reads.canonical == Some(p) ==> {
            &&& status::space_key_ask(repo_root, reads) is None
            &&& status::space_key_value(reads) == p
        },
{
}

/// Two directories whose checkouts resolve to the same path have the same key, and two whose
/// checkouts resolve to different paths have different ones.
pub proof fn law_keys_are_equal_where_paths_resolve_equally(
    reads: ReadsView,
    other: ReadsView,
    p: PathView,
    q: PathView,
)
    requires
        reads.worktree matches Some(Some(_)),
        other.worktree matches Some(Some(_)),
        reads.canonical == Some(p),
        other.canonical == Some(q),
    ensures
        status::cache_key_value(reads) == status::cache_key_value(other) <==> p == q,
        status::cache_key_value(reads) == Some(status::space_key_value(reads)),
{
}

// Refreshes.

/// A demand for everything is for the branch and for the changes.
pub proof fn law_everything()
    ensures
        status::everything().branch,
        status::everything().dirty,
{
}

/// The retry time can be written down exactly where thirty seconds more fit the clock.
pub proof fn law_deadline_fits(reads: ReadsView, now: nat)
    ensures
        reads.miss_clock is None ==> status::deadline_fits(reads),
        reads.miss_clock == Some(now) ==> (status::deadline_fits(reads) <==> now + 30_000_000_000
            <= u64::MAX),
{
}

/// A cached entry stands exactly where it is without a fingerprint and its retry time lies
/// ahead of the clock.
pub proof fn law_standing_entries(reads: ReadsView, entry: EntryView, deadline: nat, now: nat)
    ensures
        !status::still_stands(None, reads),
        status::stands_until(None) is None,
        entry.fingerprint is Some || entry.retry_after is None ==> {
            &&& !status::still_stands(Some(entry), reads)
            &&& status::stands_until(Some(entry)) is None
        },
        entry.fingerprint is None && entry.retry_after == Some(deadline) ==> {
            &&& status::stands_until(Some(entry)) == Some(deadline)
            &&& reads.clock == Some(now) ==> (status::still_stands(Some(entry), reads) <==> now
                < deadline)
        },
{
}

/// The context of a refresh is the one in the cached fingerprint, asked about with the files it
/// depends on, as long as these are unchanged; and otherwise a new one.
pub proof fn law_context_of_a_refresh(
    cwd: PathView,
    cached: Option<EntryView>,
    reads: ReadsView,
    entry: EntryView,
    taken: FingerprintView,
)
    ensures
        ({
            let ask = status::current_context_ask(cwd, cached, reads);
            let value = status::current_context(cached, reads);
            let old = taken.repository_context;
            let fresh_ask = context::repo_context_ask(cwd, reads);
            let fresh = context::repo_context_value(reads);
            let has = cached == Some(entry) && entry.fingerprint == Some(taken);
            &&& has ==> status::cached_context(cached) == Some(old)
            &&& has && reads.cached_deps_current is None ==> ask == Some(
                (Slot::CachedDeps, RequestView::DepsCurrent { deps: old.deps }),
            )
            &&& has && reads.cached_deps_current == Some(true) ==> ask is None && value == Some(old)
            &&& has && reads.cached_deps_current == Some(false) ==> ask == fresh_ask && value
                == fresh
            &&& cached is None ==> ask == fresh_ask && value == fresh
            &&& cached == Some(entry) && entry.fingerprint is None ==> ask == fresh_ask && value
                == fresh && status::cached_context(cached) is None
            &&& cached is None ==> status::cached_context(cached) is None
        }),
{
}

/// A refresh that finds no repository asks for the label of the directory itself and then for
/// the time. It shows that label alone, and leaves an entry that stands for thirty seconds.
pub proof fn law_refresh_without_a_repository(
    cwd: PathView,
    cached: Option<EntryView>,
    demand: GitStatusRefreshDemand,
    reads: ReadsView,
    label: Seq<char>,
    now: nat,
)
    requires
        reads.clock is Some || status::stands_until(cached) is None,
        !status::still_stands(cached, reads),
        status::current_context_ask(cwd, cached, reads) is None,
        status::current_context(cached, reads) is None,
    ensures
        reads.fallback_label is None ==> status::status_ask(cwd, cached, demand, reads) == Some(
            (Slot::FallbackLabel, RequestView::FallbackLabel { cwd }),
        ),
        reads.fallback_label is Some && reads.miss_clock is None ==> status::status_ask(
            cwd,
            cached,
            demand,
            reads,
        ) == Some((Slot::MissClock, RequestView::Clock)),
        reads.fallback_label == Some(label) && reads.miss_clock == Some(now) ==> {
            let snapshot = SnapshotView {
                auto_label: label,
                branch: None,
                space: None,
                dirty: None,
            };
            &&& status::status_ask(cwd, cached, demand, reads) is None
            &&& status::status_value(cached, demand, reads) == (
                snapshot,
                Some(
                    EntryView {
                        fingerprint: None,
                        retry_after: Some((now + 30_000_000_000) as nat),
                        snapshot,
                    },
                ),
            )
        },
{
}

/// A refresh that finds a repository asks for the label of the directory in exactly the checkout
/// of its context, for the repository of exactly that checkout, for `HEAD` in that context, and
/// last, if they are wanted, for the changes in the directory.
pub proof fn law_questions_in_a_repository(
    cwd: PathView,
    cached: Option<EntryView>,
    demand: GitStatusRefreshDemand,
    reads: ReadsView,
    context: ContextView,
)
    requires
        reads.clock is Some || status::stands_until(cached) is None,
        !status::still_stands(cached, reads),
        status::current_context_ask(cwd, cached, reads) is None,
        status::current_context(cached, reads) == Some(context),
    ensures
        ({
            let ask = status::status_ask(cwd, cached, demand, reads);
            let labelled = reads.auto_label is Some && reads.space is Some;
            let head = head::head_ask(context.info, context.reftable, reads);
            &&& reads.auto_label is None ==> ask == Some(
                (
                    Slot::AutoLabel,
                    RequestView::AutomaticLabel { cwd, repo_root: context.info.repo_root },
                ),
            )
            &&& reads.auto_label is Some && reads.space is None ==> ask == Some(
                (Slot::Space, RequestView::SpaceMetadata { info: context.info }),
            )
            &&& labelled && head is Some ==> ask == head
            &&& labelled && head is None && demand.dirty && reads.dirty is None ==> ask == Some(
                (
                    Slot::Dirty,
                    RequestView::RunGit {
                        dir: cwd,
                        args: seq!["--no-optional-locks"@, "status"@, "--porcelain"@],
                    },
                ),
            )
            &&& labelled && head is None && (!demand.dirty || reads.dirty is Some) ==> ask is None
        }),
{
}

/// Whenever the repository is asked for, it is that of the checkout that the refresh found: the
/// question is the same for every directory in one checkout.
pub proof fn law_space_is_that_of_the_checkout(
    cwd: PathView,
    other_cwd: PathView,
    cached: Option<EntryView>,
    demand: GitStatusRefreshDemand,
    reads: ReadsView,
    request: RequestView,
)
    requires
        status::status_ask(cwd, cached, demand, reads) == Some((Slot::Space, request)),
    ensures
        status::current_context(cached, reads) is Some,
        request == (RequestView::SpaceMetadata {
            info: status::current_context(cached, reads)->0.info,
        }),
        status::status_ask(other_cwd, cached, demand, reads) == Some((Slot::Space, request)),
        cached is None ==> (request matches RequestView::SpaceMetadata { info } && reads.worktree
            == Some(Some(info))),
{
}

/// A refresh in a repository shows the label and the repository that it was answered with, the
/// branch of `HEAD` and the count where they are wanted; and where `HEAD` points at something,
/// it leaves an entry with that `HEAD` and the context.
pub proof fn law_refresh_in_a_repository(
    cached: Option<EntryView>,
    demand: GitStatusRefreshDemand,
    reads: ReadsView,
    context: ContextView,
    label: Seq<char>,
    space: PathView,
    full_ref: Seq<char>,
    name: Seq<char>,
    oid: Option<Seq<char>>,
    commit: Seq<char>,
)
    requires
        !status::still_stands(cached, reads),
        status::current_context(cached, reads) == Some(context),
        reads.auto_label == Some(label),
        reads.space == Some(space),
    ensures
        ({
            let head = head::head_value(context.reftable, reads);
            let (snapshot, entry) = status::status_value(cached, demand, reads);
            let on_branch = HeadView::Branch { full_ref, short_name: name, oid };
            let detached = HeadView::Detached { oid: commit };
            &&& snapshot.auto_label == label
            &&& snapshot.space == Some(space)
            &&& snapshot.dirty == if demand.dirty { status::dirty_value(reads) } else { None }
            &&& head == Some(on_branch) ==> {
                &&& snapshot.branch == if demand.branch { Some(name) } else { None }
                &&& entry == Some(
                    EntryView {
                        fingerprint: Some(
                            FingerprintView {
                                head: on_branch,
                                upstream: None,
                                repository_context: context,
                            },
                        ),
                        retry_after: None,
                        snapshot,
                    },
                )
            }
            &&& head == Some(detached) ==> {
                &&& snapshot.branch is None
                &&& entry == Some(
                    EntryView {
                        fingerprint: Some(
                            FingerprintView {
                                head: detached,
                                upstream: None,
                                repository_context: context,
                            },
                        ),
                        retry_after: None,
                        snapshot,
                    },
                )
            }
            &&& head is None ==> snapshot.branch is None && entry is None
        }),
{
}

/// Where a cached miss has a retry time the clock is asked first, and where it has none, or
/// nothing stands, a refresh asks what its context asks.
pub proof fn law_first_questions_of_a_refresh(
    cwd: PathView,
    cached: Option<EntryView>,
    demand: GitStatusRefreshDemand,
    reads: ReadsView,
)
    ensures
        status::stands_until(cached) is Some && reads.clock is None ==> status::status_ask(
            cwd,
            cached,
            demand,
            reads,
        ) == Some((Slot::Clock, RequestView::Clock)),
        (reads.clock is Some || status::stands_until(cached) is None) && !status::still_stands(
            cached,
            reads,
        ) && status::current_context_ask(cwd, cached, reads) is Some ==> status::status_ask(
            cwd,
            cached,
            demand,
            reads,
        ) == status::current_context_ask(cwd, cached, reads),
{
}

} // verus!
