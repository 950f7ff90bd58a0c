//! Texts, and occurrences of one text inside another.
//!
//! Texts are sequences of characters. The definitions here are what the
//! statements about a rendered page are phrased in.

use vstd::prelude::*;

verus! {

/// The text of an optional string.
pub open spec fn text_of(s: Option<String>) -> Option<Seq<char>> {
    match s {
        Some(s) => Some(s@),
        None => None,
    }
}

/// The texts of a list of strings.
pub open spec fn texts(strings: Seq<String>) -> Seq<Seq<char>> {
    Seq::new(strings.len(), |i: int| strings[i]@)
}

/// The texts of a list of pairs of strings.
pub open spec fn pair_texts(pairs: Seq<(String, String)>) -> Seq<(Seq<char>, Seq<char>)> {
    Seq::new(pairs.len(), |i: int| (pairs[i].0@, pairs[i].1@))
}

/// `needle` stands in `hay` at offset `at`.
pub open spec fn occurs_at(needle: Seq<char>, hay: Seq<char>, at: int) -> bool {
    &&& 0 <= at
    &&& at + needle.len() <= hay.len()
    &&& hay.subrange(at, at + needle.len()) == needle
}

/// `needle` stands somewhere in `hay`.
pub open spec fn occurs_in(needle: Seq<char>, hay: Seq<char>) -> bool {
    exists|at: int| occurs_at(needle, hay, at)
}

/// `first` stands somewhere in `hay`, and `second` stands somewhere behind the
/// end of that occurrence.
pub open spec fn occur_in_order(first: Seq<char>, second: Seq<char>, hay: Seq<char>) -> bool {
    exists|i: int, j: int|
        occurs_at(first, hay, i) && occurs_at(second, hay, j) && i + first.len() <= j
}

/// A text stands in any text built around it, at the length of what precedes it.
pub proof fn lemma_occurs_at_middle(before: Seq<char>, needle: Seq<char>, after: Seq<char>)
    ensures
        occurs_at(needle, before + needle + after, before.len() as int),
{
    let hay = before + needle + after;
    let at = before.len() as int;
    assert(hay.subrange(at, at + needle.len()) =~= needle);
}

/// An occurrence survives when text is put before and behind the hay; its
/// offset grows by the length of what was put before.
pub proof fn lemma_occurs_at_widen(
    needle: Seq<char>,
    hay: Seq<char>,
    at: int,
    before: Seq<char>,
    after: Seq<char>,
)
    requires
        occurs_at(needle, hay, at),
    ensures
        occurs_at(needle, before + hay + after, before.len() + at),
{
    let wide = before + hay + after;
    assert(wide.subrange(before.len() + at, before.len() + at + needle.len()) =~= hay.subrange(
        at,
        at + needle.len(),
    ));
}

/// An occurrence inside an occurrence is an occurrence in the outer text, at the
/// sum of the two offsets.
pub proof fn lemma_occurs_at_nested(
    needle: Seq<char>,
    part: Seq<char>,
    hay: Seq<char>,
    inner: int,
    outer: int,
)
    requires
        occurs_at(needle, part, inner),
        occurs_at(part, hay, outer),
    ensures
        occurs_at(needle, hay, outer + inner),
{
    assert(hay.subrange(outer + inner, outer + inner + needle.len()) =~= hay.subrange(
        outer,
        outer + part.len(),
    ).subrange(inner, inner + needle.len()));
}

/// What stands in a text that stands in a second text stands in the second.
pub proof fn lemma_occurs_in_nested(needle: Seq<char>, part: Seq<char>, hay: Seq<char>)
    requires
        occurs_in(needle, part),
        occurs_in(part, hay),
    ensures
        occurs_in(needle, hay),
{
    let inner = choose|at: int| occurs_at(needle, part, at);
    let outer = choose|at: int| occurs_at(part, hay, at);
    lemma_occurs_at_nested(needle, part, hay, inner, outer);
}

/// What stands in a part of a text stands in the whole.
pub proof fn lemma_occurs_in_widen(
    needle: Seq<char>,
    hay: Seq<char>,
    before: Seq<char>,
    after: Seq<char>,
)
    requires
        occurs_in(needle, hay),
    ensures
        occurs_in(needle, before + hay + after),
{
    let at = choose|at: int| occurs_at(needle, hay, at);
    lemma_occurs_at_widen(needle, hay, at, before, after);
}

/// Two occurrences in order inside a text that stands in a second text are in
/// order in the second.
pub proof fn lemma_occur_in_order_nested(
    first: Seq<char>,
    second: Seq<char>,
    part: Seq<char>,
    hay: Seq<char>,
)
    requires
        occur_in_order(first, second, part),
        occurs_in(part, hay),
    ensures
        occur_in_order(first, second, hay),
{
    let (i, j) = choose|i: int, j: int|
        occurs_at(first, part, i) && occurs_at(second, part, j) && i + first.len() <= j;
    let outer = choose|at: int| occurs_at(part, hay, at);
    lemma_occurs_at_nested(first, part, hay, i, outer);
    lemma_occurs_at_nested(second, part, hay, j, outer);
}

/// Two occurrences in order stay in order when text is put before and behind
/// the hay.
pub proof fn lemma_occur_in_order_widen(
    first: Seq<char>,
    second: Seq<char>,
    hay: Seq<char>,
    before: Seq<char>,
    after: Seq<char>,
)
    requires
        occur_in_order(first, second, hay),
    ensures
        occur_in_order(first, second, before + hay + after),
{
    let (i, j) = choose|i: int, j: int|
        occurs_at(first, hay, i) && occurs_at(second, hay, j) && i + first.len() <= j;
    lemma_occurs_at_widen(first, hay, i, before, after);
    lemma_occurs_at_widen(second, hay, j, before, after);
}

} // verus!
