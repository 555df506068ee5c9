//! Text helpers: what it means for one text to occur in another, and the few
//! operations of `str` that the rest of the library builds on.

use vstd::prelude::*;

verus! {

/// `pat` stands in `hay` at character position `at`.
pub open spec fn occurs_at(hay: Seq<char>, pat: Seq<char>, at: int) -> bool {
    &&& 0 <= at
    &&& at + pat.len() <= hay.len()
    &&& hay.subrange(at, at + pat.len()) == pat
}

/// `pat` stands somewhere in `hay`.
pub open spec fn occurs_in(hay: Seq<char>, pat: Seq<char>) -> bool {
    exists|at: int| occurs_at(hay, pat, at)
}

/// `at` is the first position at which `pat` stands in `hay`.
pub open spec fn first_occurrence(hay: Seq<char>, pat: Seq<char>, at: int) -> bool {
    &&& occurs_at(hay, pat, at)
    &&& forall|earlier: int| 0 <= earlier < at ==> !occurs_at(hay, pat, earlier)
}

/// `hay` cut off where `pat` first occurs; all of `hay` where `pat` does not occur.
pub open spec fn before_first(hay: Seq<char>, pat: Seq<char>) -> Seq<char> {
    if occurs_in(hay, pat) {
        hay.take(choose|at: int| first_occurrence(hay, pat, at))
    } else {
        hay
    }
}

/// The first position of a pattern is unique, so `before_first` is the prefix
/// that ends at any position known to be the first.
pub proof fn lemma_before_first(hay: Seq<char>, pat: Seq<char>, at: int)
    requires
        first_occurrence(hay, pat, at),
    ensures
        before_first(hay, pat) == hay.take(at),
{
    let chosen = choose|k: int| first_occurrence(hay, pat, k);
    assert(occurs_in(hay, pat));
    assert(first_occurrence(hay, pat, chosen));
    if chosen < at {
        assert(!occurs_at(hay, pat, chosen));
    }
    if at < chosen {
        assert(!occurs_at(hay, pat, at));
    }
}

/// Equality of string slices, as `str`'s `PartialEq::eq` decides it: the two
/// hold the same characters.
pub assume_specification[ <str as PartialEq>::eq ](a: &str, b: &str) -> (same: bool)
    ensures
        same == (a@ == b@),
;

/// Whether the character `c` is among those of `hay`.
pub fn has_char(hay: &str, c: char) -> (found: bool)
    ensures
        found == hay@.contains(c),
{
    for x in it: hay.chars()
        invariant
            it.seq() == hay@,
            forall|j: int| 0 <= j < it.index() ==> hay@[j] != c,
    {
        if x == c {
            assert(hay@[it.index() as int] == c);
            return true;
        }
    }
    false
}

/// `str::contains` with a string as the pattern: whether `pat` matches a
/// sub-slice of `hay`.
#[verifier::external_body]
pub(crate) fn has_text(hay: &str, pat: &str) -> (found: bool)
    ensures
        found == occurs_in(hay@, pat@),
{
    hay.contains(pat)
}

/// `str::split_once`: the text before and the text after the first occurrence
/// of `pat` in `hay`, or `None` where `pat` does not occur.
#[verifier::external_body]
pub(crate) fn split_first<'a>(hay: &'a str, pat: &str) -> (parts: Option<(&'a str, &'a str)>)
    ensures
        match parts {
            Some((head, tail)) => {
                &&& hay@ == head@ + pat@ + tail@
                &&& first_occurrence(hay@, pat@, head@.len() as int)
            },
            None => !occurs_in(hay@, pat@),
        },
{
    hay.split_once(pat)
}

/// `text` cut off where `mark` first occurs in it.
pub fn cut_at(text: String, mark: &str) -> (cut: String)
    ensures
        cut@ == before_first(text@, mark@),
{
    match split_first(text.as_str(), mark) {
        Some((head, _)) => {
            proof {
                lemma_before_first(text@, mark@, head@.len() as int);
                assert(text@.take(head@.len() as int) =~= head@);
            }
            head.to_owned()
        },
        None => text,
    }
}

} // verus!
