//! Models of searching in a sequence of code points, and what holds of them.

use vstd::prelude::*;

verus! {

/// The predicate "is the character `c`".
pub open spec fn same_as(c: char) -> spec_fn(char) -> bool {
    |x: char| x == c
}

/// The predicate "is any character but `c`".
pub open spec fn other_than(c: char) -> spec_fn(char) -> bool {
    |x: char| x != c
}

/// The predicate "occurs in `chars`".
pub open spec fn one_of(chars: Seq<char>) -> spec_fn(char) -> bool {
    |x: char| chars.contains(x)
}

/// Where the longest run of characters satisfying `p` that begins at `pos`
/// ends: the first offset at or after `pos` that is the end of `src` or holds
/// a character rejected by `p`.
pub open spec fn run_end(src: Seq<char>, pos: int, p: spec_fn(char) -> bool) -> int
    decreases src.len() - pos,
{
    if 0 <= pos < src.len() && p(src[pos]) {
        run_end(src, pos + 1, p)
    } else {
        pos
    }
}

/// `pat` occurs in `src` at offset `pos`.
pub open spec fn starts_with_at(src: Seq<char>, pos: int, pat: Seq<char>) -> bool {
    &&& 0 <= pos
    &&& pos + pat.len() <= src.len()
    &&& src.subrange(pos, pos + pat.len()) == pat
}

/// The offset just past the first occurrence of `pat` found when reading
/// `src` forward from `pos`, or `None` if the end of `src` comes first. With
/// `escapes`, a backslash that does not begin an occurrence takes the
/// character after it along, whatever that character is.
pub open spec fn closer_end(src: Seq<char>, pos: int, pat: Seq<char>, escapes: bool) -> Option<int>
    decreases src.len() - pos,
{
    if starts_with_at(src, pos, pat) {
        Some(pos + pat.len())
    } else if pos < 0 || pos >= src.len() {
        None
    } else if escapes && src[pos] == '\\' {
        if pos + 1 < src.len() {
            closer_end(src, pos + 2, pat, escapes)
        } else {
            None
        }
    } else {
        closer_end(src, pos + 1, pat, escapes)
    }
}

/// A run ends inside the buffer, everything in it satisfies the predicate,
/// and what follows it does not.
pub proof fn lemma_run_end(src: Seq<char>, pos: int, p: spec_fn(char) -> bool)
    requires
        0 <= pos <= src.len(),
    ensures
        pos <= run_end(src, pos, p) <= src.len(),
        forall|i: int| pos <= i < run_end(src, pos, p) ==> p(#[trigger] src[i]),
        run_end(src, pos, p) < src.len() ==> !p(src[run_end(src, pos, p)]),
    decreases src.len() - pos,
{
    if pos < src.len() && p(src[pos]) {
        lemma_run_end(src, pos + 1, p);
    }
}

/// An offset that ends a run of accepted characters and is followed by the
/// end of the buffer or a rejected character is the end of the longest run.
pub proof fn lemma_run_end_is(src: Seq<char>, pos: int, end: int, p: spec_fn(char) -> bool)
    requires
        0 <= pos <= end <= src.len(),
        forall|i: int| pos <= i < end ==> p(#[trigger] src[i]),
        end < src.len() ==> !p(src[end]),
    ensures
        run_end(src, pos, p) == end,
    decreases end - pos,
{
    if pos < end {
        lemma_run_end_is(src, pos + 1, end, p);
    }
}

/// A run that begins on an accepted character is not empty.
pub proof fn lemma_run_end_advances(src: Seq<char>, pos: int, p: spec_fn(char) -> bool)
    requires
        0 <= pos < src.len(),
        p(src[pos]),
    ensures
        pos < run_end(src, pos, p) <= src.len(),
{
    lemma_run_end(src, pos + 1, p);
}

/// A closing pattern that is found ends inside the buffer, after the place
/// the search began at.
pub proof fn lemma_closer_end(src: Seq<char>, pos: int, pat: Seq<char>, escapes: bool)
    requires
        0 <= pos <= src.len(),
    ensures
        closer_end(src, pos, pat, escapes) matches Some(end) ==> pos + pat.len() <= end
            <= src.len(),
    decreases src.len() - pos,
{
    if starts_with_at(src, pos, pat) {
    } else if pos >= src.len() {
    } else if escapes && src[pos] == '\\' {
        if pos + 1 < src.len() {
            lemma_closer_end(src, pos + 2, pat, escapes);
        }
    } else {
        lemma_closer_end(src, pos + 1, pat, escapes);
    }
}

/// Tells whether two string slices hold the same text.
pub fn same_text(a: &str, b: &str) -> (r: bool)
    ensures
        r == (a@ == b@),
{
    let n = a.unicode_len();
    if n != b.unicode_len() {
        return false;
    }
    let mut i: usize = 0;
    while i < n
        invariant
            n == a@.len(),
            n == b@.len(),
            i <= n,
            forall|j: int| 0 <= j < i ==> a@[j] == b@[j],
        decreases n - i,
    {
        if a.get_char(i) != b.get_char(i) {
            return false;
        }
        i += 1;
    }
    assert(a@ =~= b@);
    true
}

} // verus!
