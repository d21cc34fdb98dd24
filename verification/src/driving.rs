//! Operations driven from their first question on, whatever they are answered.

use crate::context;
use crate::fingerprint;
use crate::path::PathView;
use crate::reads;
use crate::reads::AnswerView;
use crate::reads::ReadsView;
use crate::reads::RequestView;
use crate::reads::Slot;
use crate::status;
use crate::status::GitStatusRefreshDemand;
use crate::types::ContextView;
use crate::types::EntryView;
use vstd::prelude::*;

verus! {

/// Whether an operation is done after at most `n` more answers, whatever these are, as long
/// as each is of the kind that its question calls for.
pub open spec fn ends_within(
    operation: spec_fn(ReadsView) -> Option<(Slot, RequestView)>,
    reads: ReadsView,
    n: nat,
) -> bool
    decreases n,
{
    match operation(reads) {
        None => true,
        Some((slot, request)) => n > 0 && forall|answer: AnswerView|
            reads::answers(request, answer) ==> ends_within(
                operation,
                #[trigger] reads::recorded(reads, slot, answer),
                (n - 1) as nat,
            ),
    }
}

/// The place of a question in the order in which questions are asked. There are at most five
/// files to stamp.
spec fn place(slot: Slot, stamped: nat) -> nat {
    match slot {
        Slot::Clock => 0,
        Slot::CachedDeps => 1,
        Slot::Worktree => 2,
        Slot::RefStorage => 3,
        Slot::Stamp => 4 + stamped,
        Slot::WorktreeAgain => 9,
        Slot::RefStorageAgain => 10,
        Slot::FreshDeps => 11,
        Slot::FallbackLabel => 12,
        Slot::MissClock => 13,
        Slot::AutoLabel => 14,
        Slot::Space => 15,
        Slot::SymbolicHead => 16,
        Slot::HeadText => 16,
        Slot::HeadOid => 17,
        Slot::Dirty => 18,
        Slot::ConfigDeps => 18,
        Slot::Config => 19,
        Slot::UpstreamRef => 20,
        Slot::UpstreamOid => 21,
        Slot::Canonical => 3,
    }
}

/// Whether an answer to what an operation asks leads it to a later question, and what it asks
/// comes before `limit`.
spec fn moves_on(
    operation: spec_fn(ReadsView) -> Option<(Slot, RequestView)>,
    limit: nat,
    reads: ReadsView,
    answer: AnswerView,
) -> bool {
    match operation(reads) {
        None => true,
        Some((slot, request)) => {
            let next = reads::recorded(reads, slot, answer);
            &&& place(slot, reads.deps.len()) < limit
            &&& reads::answers(request, answer) ==> match operation(next) {
                None => true,
                Some((later, _)) => place(slot, reads.deps.len()) < place(later, next.deps.len()),
            }
        },
    }
}

/// An operation that always moves on comes to an end.
proof fn lemma_ends(
    operation: spec_fn(ReadsView) -> Option<(Slot, RequestView)>,
    limit: nat,
    reads: ReadsView,
    n: nat,
)
    requires
        forall|r: ReadsView, answer: AnswerView| #[trigger] moves_on(operation, limit, r, answer),
        match operation(reads) {
            None => true,
            Some((slot, _)) => limit <= place(slot, reads.deps.len()) + n,
        },
    ensures
        ends_within(operation, reads, n),
    decreases n,
{
    if let Some((slot, request)) = operation(reads) {
        assert(moves_on(operation, limit, reads, AnswerView::Flag(true)));
        assert forall|answer: AnswerView| reads::answers(request, answer) implies ends_within(
            operation,
            #[trigger] reads::recorded(reads, slot, answer),
            (n - 1) as nat,
        ) by {
            assert(moves_on(operation, limit, reads, answer));
            lemma_ends(operation, limit, reads::recorded(reads, slot, answer), (n - 1) as nat);
        }
    }
}

/// Whether a question belongs to the fingerprint itself rather than to its context.
spec fn comes_after_context(slot: Slot) -> bool {
    match slot {
        Slot::SymbolicHead
        | Slot::HeadText
        | Slot::HeadOid
        | Slot::ConfigDeps
        | Slot::Config
        | Slot::UpstreamRef
        | Slot::UpstreamOid => true,
        _ => false,
    }
}

proof fn lemma_context_moves_on(cwd: PathView, reads: ReadsView, answer: AnswerView)
    ensures
        moves_on(|r: ReadsView| context::repo_context_ask(cwd, r), 12, reads, answer),
{
}

proof fn lemma_fingerprint_moves_on(
    repo: ContextView,
    include_upstream: bool,
    reads: ReadsView,
    answer: AnswerView,
)
    ensures
        match fingerprint::fingerprint_ask(repo, include_upstream, reads) {
            None => true,
            Some((slot, _)) => place(slot, reads.deps.len()) >= 16 && comes_after_context(slot),
        },
        moves_on(
            |r: ReadsView| fingerprint::fingerprint_ask(repo, include_upstream, r),
            22,
            reads,
            answer,
        ),
{
}

proof fn lemma_current_context_moves_on(
    cwd: PathView,
    cached: Option<EntryView>,
    reads: ReadsView,
    answer: AnswerView,
)
    ensures
        moves_on(|r: ReadsView| status::current_context_ask(cwd, cached, r), 12, reads, answer),
        match status::current_context_ask(cwd, cached, reads) {
            None => true,
            Some((slot, _)) => place(slot, reads.deps.len()) >= 1 && slot != Slot::Clock,
        },
{
    lemma_context_moves_on(cwd, reads, answer);
}

proof fn lemma_repo_status_moves_on(
    cwd: PathView,
    context: ContextView,
    demand: GitStatusRefreshDemand,
    reads: ReadsView,
    answer: AnswerView,
)
    ensures
        moves_on(
            |r: ReadsView| status::repo_status_ask(cwd, context, demand, r),
            19,
            reads,
            answer,
        ),
        match status::repo_status_ask(cwd, context, demand, reads) {
            None => true,
            Some((slot, _)) => place(slot, reads.deps.len()) >= 14 && is_late(slot),
        },
{
}

/// Whether a question comes after the context of a refresh is settled.
spec fn is_late(slot: Slot) -> bool {
    match slot {
        Slot::FallbackLabel
        | Slot::MissClock
        | Slot::AutoLabel
        | Slot::Space
        | Slot::SymbolicHead
        | Slot::HeadText
        | Slot::HeadOid
        | Slot::Dirty => true,
        _ => false,
    }
}

/// A late answer leaves the context of a refresh as it is.
proof fn lemma_late_answer(
    cwd: PathView,
    cached: Option<EntryView>,
    reads: ReadsView,
    slot: Slot,
    answer: AnswerView,
)
    requires
        is_late(slot),
    ensures
        ({
            let next = reads::recorded(reads, slot, answer);
            &&& next.clock == reads.clock
            &&& status::current_context_ask(cwd, cached, next) == status::current_context_ask(
                cwd,
                cached,
                reads,
            )
            &&& status::current_context(cached, next) == status::current_context(cached, reads)
        }),
{
}

proof fn lemma_refresh_moves_on(
    cwd: PathView,
    cached: Option<EntryView>,
    demand: GitStatusRefreshDemand,
    reads: ReadsView,
    answer: AnswerView,
)
    ensures
        moves_on(|r: ReadsView| status::status_ask(cwd, cached, demand, r), 19, reads, answer),
{
    match status::status_ask(cwd, cached, demand, reads) {
        None => {},
        Some((slot, request)) => {
            let next = reads::recorded(reads, slot, answer);
            if slot != Slot::Clock {
                if is_late(slot) {
                    lemma_late_answer(cwd, cached, reads, slot, answer);
                }
                lemma_current_context_moves_on(cwd, cached, reads, answer);
                lemma_current_context_moves_on(cwd, cached, next, answer);
                match status::current_context(cached, reads) {
                    None => {},
                    Some(context) => {
                        lemma_repo_status_moves_on(cwd, context, demand, reads, answer);
                    },
                }
                match status::current_context(cached, next) {
                    None => {},
                    Some(context) => {
                        lemma_repo_status_moves_on(cwd, context, demand, next, answer);
                    },
                }
            }
        },
    }
}

proof fn lemma_full_fingerprint_moves_on(cwd: PathView, reads: ReadsView, answer: AnswerView)
    ensures
        moves_on(
            |r: ReadsView| fingerprint::git_status_fingerprint_ask(cwd, r),
            22,
            reads,
            answer,
        ),
{
    match fingerprint::git_status_fingerprint_ask(cwd, reads) {
        None => {},
        Some((slot, request)) => {
            let next = reads::recorded(reads, slot, answer);
            lemma_context_moves_on(cwd, reads, answer);
            match context::repo_context_value(reads) {
                None => {},
                Some(repo) => {
                    lemma_fingerprint_moves_on(repo, true, reads, answer);
                },
            }
            match context::repo_context_value(next) {
                None => {},
                Some(repo) => {
                    lemma_fingerprint_moves_on(repo, true, next, answer);
                },
            }
        },
    }
}

/// A refresh is done after at most nineteen answers, whatever is cached and demanded and
/// whatever the answers are.
pub proof fn law_refresh_ends(
    cwd: PathView,
    cached: Option<EntryView>,
    demand: GitStatusRefreshDemand,
    reads: ReadsView,
)
    ensures
        ends_within(|r: ReadsView| status::status_ask(cwd, cached, demand, r), reads, 19),
{
    let operation = |r: ReadsView| status::status_ask(cwd, cached, demand, r);
    assert forall|r: ReadsView, answer: AnswerView| #[trigger]
        moves_on(operation, 19, r, answer) by {
        lemma_refresh_moves_on(cwd, cached, demand, r, answer);
    }
    lemma_ends(operation, 19, reads, 19);
}

/// A full fingerprint is done after at most twenty answers, whatever they are.
pub proof fn law_fingerprint_ends(cwd: PathView, reads: ReadsView)
    ensures
        ends_within(
            |r: ReadsView| fingerprint::git_status_fingerprint_ask(cwd, r),
            reads,
            20,
        ),
{
    let operation = |r: ReadsView| fingerprint::git_status_fingerprint_ask(cwd, r);
    assert forall|r: ReadsView, answer: AnswerView| #[trigger]
        moves_on(operation, 22, r, answer) by {
        lemma_full_fingerprint_moves_on(cwd, r, answer);
    }
    lemma_ends(operation, 22, reads, 20);
}

/// The key of a directory is known after at most two answers, whatever they are.
pub proof fn law_cache_key_ends(cwd: PathView, reads: ReadsView)
    ensures
        ends_within(|r: ReadsView| status::cache_key_ask(cwd, r), reads, 2),
{
    let operation = |r: ReadsView| status::cache_key_ask(cwd, r);
    assert forall|r: ReadsView, answer: AnswerView| #[trigger]
        moves_on(operation, 4, r, answer) by {}
    lemma_ends(operation, 4, reads, 2);
}

/// Whether the slot of a question takes exactly the answers that the question calls for.
pub open spec fn takes_its_answers(ask: Option<(Slot, RequestView)>) -> bool {
    match ask {
        None => true,
        Some((slot, request)) => forall|answer: AnswerView| #[trigger]
            reads::fits(slot, answer) <==> reads::answers(request, answer),
    }
}

/// Each question comes with a slot that takes exactly the answers it calls for, so an answer
/// to it is always recorded.
pub proof fn law_answers_fit(
    cwd: PathView,
    cached: Option<EntryView>,
    demand: GitStatusRefreshDemand,
    repo_root: PathView,
    reads: ReadsView,
)
    ensures
        takes_its_answers(status::status_ask(cwd, cached, demand, reads)),
        takes_its_answers(fingerprint::git_status_fingerprint_ask(cwd, reads)),
        takes_its_answers(status::cache_key_ask(cwd, reads)),
        takes_its_answers(status::space_key_ask(repo_root, reads)),
{
}

/// The answers that an operation has after it was driven from the start with `given`. What is
/// given once it is done, or is not of the kind that its question calls for, goes nowhere.
pub open spec fn driven(
    operation: spec_fn(ReadsView) -> Option<(Slot, RequestView)>,
    given: Seq<AnswerView>,
) -> ReadsView
    decreases given.len(),
{
    if given.len() == 0 {
        reads::no_reads()
    } else {
        let before = driven(operation, given.drop_last());
        match operation(before) {
            Some((slot, request)) => if reads::answers(request, given.last()) {
                reads::recorded(before, slot, given.last())
            } else {
                before
            },
            None => before,
        }
    }
}

/// Whether no more files are stamped than a context has: none before a checkout is found, and
/// no more than its files after that.
pub open spec fn stamps_keep_to_the_files(reads: ReadsView) -> bool {
    match reads.worktree {
        Some(Some(info)) => reads.deps.len() <= context::dependency_files(info).len(),
        _ => reads.deps.len() == 0,
    }
}

/// Whether, besides, a context that is settled has exactly one stamp for each of its files.
pub open spec fn one_stamp_per_file(cwd: PathView, reads: ReadsView) -> bool {
    &&& stamps_keep_to_the_files(reads)
    &&& context::repo_context_ask(cwd, reads) is None ==> match context::repo_context_value(reads) {
        Some(found) => {
            &&& reads.worktree == Some(Some(found.info))
            &&& found.deps.len() == context::dependency_files(found.info).len()
        },
        None => reads.deps.len() == 0,
    }
}

/// Stamps keep to the files at every step that an operation takes, if it asks for checkouts
/// and stamps only as a new context does.
proof fn lemma_stamps_keep(
    operation: spec_fn(ReadsView) -> Option<(Slot, RequestView)>,
    cwd: PathView,
    given: Seq<AnswerView>,
)
    requires
        forall|r: ReadsView| #[trigger] asks_as_a_context(operation, cwd, r),
    ensures
        stamps_keep_to_the_files(driven(operation, given)),
    decreases given.len(),
{
    if given.len() > 0 {
        lemma_stamps_keep(operation, cwd, given.drop_last());
        assert(asks_as_a_context(operation, cwd, driven(operation, given.drop_last())));
    }
}

spec fn asks_as_a_context(
    operation: spec_fn(ReadsView) -> Option<(Slot, RequestView)>,
    cwd: PathView,
    reads: ReadsView,
) -> bool {
    match operation(reads) {
        Some((slot, _)) => slot == Slot::Worktree || slot == Slot::Stamp ==> operation(reads)
            == context::repo_context_ask(cwd, reads),
        None => true,
    }
}

/// However a refresh is driven, its context has at most one stamp for each of its files, and
/// exactly one for each once it is settled.
pub proof fn law_refresh_stamps_each_file_once(
    cwd: PathView,
    cached: Option<EntryView>,
    demand: GitStatusRefreshDemand,
    given: Seq<AnswerView>,
)
    ensures
        one_stamp_per_file(
            cwd,
            driven(|r: ReadsView| status::status_ask(cwd, cached, demand, r), given),
        ),
{
    let operation = |r: ReadsView| status::status_ask(cwd, cached, demand, r);
    assert forall|r: ReadsView| #[trigger] asks_as_a_context(operation, cwd, r) by {}
    lemma_stamps_keep(operation, cwd, given);
}

/// However a full fingerprint is driven, its context has at most one stamp for each of its
/// files, and exactly one for each once it is settled.
pub proof fn law_fingerprint_stamps_each_file_once(cwd: PathView, given: Seq<AnswerView>)
    ensures
        one_stamp_per_file(
            cwd,
            driven(|r: ReadsView| fingerprint::git_status_fingerprint_ask(cwd, r), given),
        ),
{
    let operation = |r: ReadsView| fingerprint::git_status_fingerprint_ask(cwd, r);
    assert forall|r: ReadsView| #[trigger] asks_as_a_context(operation, cwd, r) by {}
    lemma_stamps_keep(operation, cwd, given);
}

/// However a new context is looked for, it has at most one stamp for each of its files, and
/// exactly one for each once it is settled.
pub proof fn law_context_stamps_each_file_once(cwd: PathView, given: Seq<AnswerView>)
    ensures
        one_stamp_per_file(
            cwd,
            driven(|r: ReadsView| context::repo_context_ask(cwd, r), given),
        ),
{
    let operation = |r: ReadsView| context::repo_context_ask(cwd, r);
    assert forall|r: ReadsView| #[trigger] asks_as_a_context(operation, cwd, r) by {}
    lemma_stamps_keep(operation, cwd, given);
}

} // verus!
