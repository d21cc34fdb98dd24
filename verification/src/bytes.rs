//! Byte strings and their lines.

use vstd::prelude::*;

verus! {

/// The byte that ends a line.
pub const NEWLINE: u8 = 0x0a;

/// What stands in `s` between the bytes that end lines, in order. There is one line more than
/// there are line ends, so an empty string has a single, empty line.
pub open spec fn lines(s: Seq<u8>) -> Seq<Seq<u8>>
    decreases s.len(),
{
    if s.len() == 0 {
        seq![Seq::empty()]
    } else {
        let before = lines(s.drop_last());
        if s.last() == NEWLINE {
            before.push(Seq::empty())
        } else {
            before.drop_last().push(before.last().push(s.last()))
        }
    }
}

/// The lines of `s` that hold at least one byte.
pub open spec fn nonempty_lines(s: Seq<u8>) -> Seq<Seq<u8>> {
    lines(s).filter(|line: Seq<u8>| line.len() > 0)
}

/// Every byte string has at least one line.
pub proof fn lemma_lines_exist(s: Seq<u8>)
    ensures
        lines(s).len() >= 1,
    decreases s.len(),
{
    if s.len() > 0 {
        lemma_lines_exist(s.drop_last());
    }
}

/// An empty byte string has no nonempty lines.
pub proof fn lemma_nonempty_lines_empty()
    ensures
        nonempty_lines(Seq::empty()).len() == 0,
{
    reveal_with_fuel(Seq::filter, 2);
    assert(lines(Seq::empty()).drop_last() =~= Seq::empty());
}

/// What one more byte does to the number of nonempty lines.
pub proof fn lemma_nonempty_lines_push(s: Seq<u8>, byte: u8)
    ensures
        lines(s.push(byte)).last().len() > 0 <==> byte != NEWLINE,
        nonempty_lines(s.push(byte)).len() == nonempty_lines(s).len() + (if byte != NEWLINE
            && lines(s).last().len() == 0 {
            1int
        } else {
            0int
        }),
{
    let keep = |line: Seq<u8>| line.len() > 0;
    let before = lines(s);
    let after = lines(s.push(byte));
    lemma_lines_exist(s);
    assert(s.push(byte).drop_last() =~= s);
    reveal(Seq::filter);
    assert(after.drop_last() =~= if byte == NEWLINE {
        before
    } else {
        before.drop_last()
    });
    assert(after.filter(keep) == if keep(after.last()) {
        after.drop_last().filter(keep).push(after.last())
    } else {
        after.drop_last().filter(keep)
    });
    assert(before.filter(keep) == if keep(before.last()) {
        before.drop_last().filter(keep).push(before.last())
    } else {
        before.drop_last().filter(keep)
    });
}

/// A byte string has at most as many nonempty lines as bytes.
pub proof fn lemma_nonempty_lines_bound(s: Seq<u8>)
    ensures
        nonempty_lines(s).len() <= s.len(),
    decreases s.len(),
{
    if s.len() == 0 {
        assert(s =~= Seq::empty());
        lemma_nonempty_lines_empty();
    } else {
        lemma_nonempty_lines_bound(s.drop_last());
        assert(s =~= s.drop_last().push(s.last()));
        lemma_nonempty_lines_push(s.drop_last(), s.last());
    }
}

/// Whether two byte strings hold the same bytes.
pub fn bytes_equal(a: &[u8], b: &[u8]) -> (equal: bool)
    ensures
        equal == (a@ == b@),
{
    if a.len() != b.len() {
        return false;
    }
    let mut i: usize = 0;
    while i < a.len()
        invariant
            i <= a.len(),
            a.len() == b.len(),
            forall|j: int| 0 <= j < i ==> a@[j] == b@[j],
        decreases a.len() - i,
    {
        if a[i] != b[i] {
            return false;
        }
        i = i + 1;
    }
    assert(a@ =~= b@);
    true
}

/// Counts the nonempty lines of `text`.
pub fn count_lines(text: &[u8]) -> (count: usize)
    ensures
        count == nonempty_lines(text@).len(),
{
    let mut count: usize = 0;
    let mut in_line: bool = false;
    let mut i: usize = 0;
    proof {
        assert(text@.take(0) =~= Seq::empty());
        lemma_nonempty_lines_empty();
    }
    while i < text.len()
        invariant
            i <= text.len(),
            count <= i,
            count == nonempty_lines(text@.take(i as int)).len(),
            in_line == (lines(text@.take(i as int)).last().len() > 0),
        decreases text.len() - i,
    {
        proof {
            assert(text@.take(i + 1) =~= text@.take(i as int).push(text@[i as int]));
            lemma_nonempty_lines_push(text@.take(i as int), text@[i as int]);
        }
        if text[i] == NEWLINE {
            in_line = false;
        } else {
            if !in_line {
                count = count + 1;
            }
            in_line = true;
        }
        i = i + 1;
    }
    assert(text@.take(text@.len() as int) =~= text@);
    count
}

} // verus!
