//! Text that Git writes about where `HEAD` points.

use vstd::prelude::*;

verus! {

/// The characters that Unicode gives the property `White_Space`.
pub open spec fn is_white_space(c: char) -> bool {
    let code = c as u32;
    ||| 0x09 <= code <= 0x0d
    ||| code == 0x20
    ||| code == 0x85
    ||| code == 0xa0
    ||| code == 0x1680
    ||| 0x2000 <= code <= 0x200a
    ||| code == 0x2028
    ||| code == 0x2029
    ||| code == 0x202f
    ||| code == 0x205f
    ||| code == 0x3000
}

/// `text` without the white space at its two ends.
pub open spec fn trimmed(text: Seq<char>) -> Seq<char>
    decreases text.len(),
{
    if text.len() > 0 && is_white_space(text.first()) {
        trimmed(text.drop_first())
    } else if text.len() > 0 && is_white_space(text.last()) {
        trimmed(text.drop_last())
    } else {
        text
    }
}

/// What follows `prefix` in `text`, if `text` starts with it.
pub open spec fn after_prefix(text: Seq<char>, prefix: Seq<char>) -> Option<Seq<char>> {
    if prefix.is_prefix_of(text) {
        Some(text.skip(prefix.len() as int))
    } else {
        None
    }
}

/// The branch name in a full ref, if the ref is a branch.
pub open spec fn branch_in(full_ref: Seq<char>) -> Option<Seq<char>> {
    after_prefix(full_ref, "refs/heads/"@)
}

/// A prefix made of two parts can be taken off part by part.
pub proof fn lemma_after_prefix_in_two_steps(text: Seq<char>, first: Seq<char>, second: Seq<char>)
    ensures
        after_prefix(text, first + second) == match after_prefix(text, first) {
            Some(rest) => after_prefix(rest, second),
            None => None,
        },
{
    let both = first + second;
    let n = first.len() as int;
    if both.is_prefix_of(text) {
        assert(both =~= text.subrange(0, both.len() as int));
        assert(first =~= both.subrange(0, n));
        assert(second =~= both.subrange(n, both.len() as int));
        assert(first =~= text.subrange(0, n));
        assert(second =~= text.skip(n).subrange(0, second.len() as int));
    }
    if first.is_prefix_of(text) && second.is_prefix_of(text.skip(n)) {
        assert(both =~= text.subrange(0, both.len() as int));
        assert(text.skip(n).skip(second.len() as int) =~= text.skip(both.len() as int));
    }
}

/// The branch in `refs/heads/` followed by a name is that name.
pub proof fn lemma_branch_in(name: Seq<char>)
    ensures
        branch_in("refs/heads/"@ + name) == Some(name),
{
    let full_ref = "refs/heads/"@ + name;
    assert("refs/heads/"@.is_prefix_of(full_ref));
    assert(full_ref.skip("refs/heads/"@.len() as int) =~= name);
}

/// Whether Unicode gives `c` the property `White_Space`.
fn is_blank(c: char) -> (blank: bool)
    ensures
        blank == is_white_space(c),
{
    let code: u32 = c as u32;
    (0x09 <= code && code <= 0x0d) || code == 0x20 || code == 0x85 || code == 0xa0 || code == 0x1680
        || (0x2000 <= code && code <= 0x200a) || code == 0x2028 || code == 0x2029 || code == 0x202f
        || code == 0x205f || code == 0x3000
}

/// The characters of `text`.
fn characters(text: &str) -> (all: Vec<char>)
    ensures
        all@ == text@,
{
    let mut all: Vec<char> = Vec::new();
    for c in it: text.chars()
        invariant
            it.seq() == text@,
            all@ == text@.take(it.index() as int),
    {
        assert(text@.take(it.index() as int).push(c) =~= text@.take(it.index() + 1));
        all.push(c);
    }
    assert(text@.take(text@.len() as int) =~= text@);
    all
}

/// Drops the white space at the two ends of `text`.
fn trim(text: &str) -> (rest: &str)
    ensures
        rest@ == trimmed(text@),
{
    let all = characters(text);
    let mut start: usize = 0;
    let mut end: usize = all.len();
    assert(all@.subrange(0, all@.len() as int) =~= all@);
    while start < end && is_blank(all[start])
        invariant
            start <= end == all.len(),
            trimmed(all@.subrange(start as int, end as int)) == trimmed(all@),
        decreases end - start,
    {
        assert(all@.subrange(start as int, end as int).drop_first() =~= all@.subrange(
            start + 1,
            end as int,
        ));
        start = start + 1;
    }
    while start < end && is_blank(all[end - 1])
        invariant
            start <= end <= all.len(),
            start < end ==> !is_white_space(all[start as int]),
            trimmed(all@.subrange(start as int, end as int)) == trimmed(all@),
        decreases end - start,
    {
        assert(all@.subrange(start as int, end as int).drop_last() =~= all@.subrange(
            start as int,
            end - 1,
        ));
        end = end - 1;
    }
    text.substring_char(start, end)
}

/// Gives what follows `prefix` in `text`, if `text` starts with it.
fn strip_prefix<'a>(text: &'a str, prefix: &str) -> (rest: Option<&'a str>)
    ensures
        rest.deep_view() == after_prefix(text@, prefix@),
{
    let all = characters(text);
    let start = characters(prefix);
    if start.len() > all.len() {
        return None;
    }
    let mut i: usize = 0;
    while i < start.len()
        invariant
            i <= start.len() <= all.len(),
            all@ == text@,
            start@ == prefix@,
            forall|j: int| 0 <= j < i ==> start@[j] == all@[j],
        decreases start.len() - i,
    {
        if start[i] != all[i] {
            return None;
        }
        i = i + 1;
    }
    assert(text@.subrange(start.len() as int, all.len() as int) =~= text@.skip(
        prefix@.len() as int,
    ));
    Some(text.substring_char(start.len(), all.len()))
}

/// Takes the branch name out of a full ref.
pub fn branch_name_in(full_ref: &str) -> (name: Option<String>)
    ensures
        name.deep_view() == branch_in(full_ref@),
{
    match strip_prefix(full_ref, "refs/heads/") {
        Some(name) => Some(name.to_string()),
        None => None,
    }
}

/// What the text of a `HEAD` file points at.
#[derive(Debug, PartialEq, Eq)]
pub enum HeadTarget {
    /// A branch.
    Branch { full_ref: String, short_name: String },
    /// A ref that is no branch.
    OtherRef,
    /// A commit.
    Commit { oid: String },
    /// Nothing: the file is blank.
    Nothing,
}

/// [`HeadTarget`] over character sequences.
pub enum HeadTargetView {
    Branch { full_ref: Seq<char>, short_name: Seq<char> },
    OtherRef,
    Commit { oid: Seq<char> },
    Nothing,
}

impl DeepView for HeadTarget {
    type V = HeadTargetView;

    open spec fn deep_view(&self) -> HeadTargetView {
        match self {
            HeadTarget::Branch { full_ref, short_name } => HeadTargetView::Branch {
                full_ref: full_ref@,
                short_name: short_name@,
            },
            HeadTarget::OtherRef => HeadTargetView::OtherRef,
            HeadTarget::Commit { oid } => HeadTargetView::Commit { oid: oid@ },
            HeadTarget::Nothing => HeadTargetView::Nothing,
        }
    }
}

/// What the text of a `HEAD` file points at: after `ref: ` stands a ref, and any other text
/// is a commit.
pub open spec fn head_target(text: Seq<char>) -> HeadTargetView {
    let head = trimmed(text);
    match after_prefix(head, "ref: "@) {
        Some(full_ref) => match branch_in(full_ref) {
            Some(short_name) => HeadTargetView::Branch { full_ref, short_name },
            None => HeadTargetView::OtherRef,
        },
        None => if head.len() == 0 {
            HeadTargetView::Nothing
        } else {
            HeadTargetView::Commit { oid: head }
        },
    }
}

/// Reads the text of a `HEAD` file.
pub fn parse_head(text: &str) -> (target: HeadTarget)
    ensures
        target.deep_view() == head_target(text@),
{
    let head = trim(text);
    match strip_prefix(head, "ref: ") {
        Some(full_ref) => match branch_name_in(full_ref) {
            Some(short_name) => HeadTarget::Branch { full_ref: full_ref.to_string(), short_name },
            None => HeadTarget::OtherRef,
        },
        None => {
            if head.is_empty() {
                HeadTarget::Nothing
            } else {
                HeadTarget::Commit { oid: head.to_string() }
            }
        },
    }
}

} // verus!
