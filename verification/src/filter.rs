//! Searching the log: an entry matches a query that occurs in it, whatever
//! the case of the letters.

use vstd::prelude::*;
use crate::text::{lemma_chars_within_bytes, lowercase, lowercased, trim, trimmed};

verus! {

/// Whether `needle` occurs in `hay`, as one piece.
pub open spec fn occurs(needle: Seq<char>, hay: Seq<char>) -> bool {
    exists|i: int|
        0 <= i && i + needle.len() <= hay.len() && #[trigger] hay.subrange(i, i + needle.len())
            == needle
}

/// The characters of a text.
pub fn to_chars(text: &str) -> (chars: Vec<char>)
    ensures
        chars@ == text@,
{
    let bytes = text.as_bytes().len();
    proof {
        lemma_chars_within_bytes(text@);
    }
    let mut chars: Vec<char> = Vec::new();
    let mut i: usize = 0;
    for ch in it: text.chars()
        invariant
            i == it.index(),
            it.seq() == text@,
            text@.len() <= bytes,
            chars@ == text@.take(i as int),
    {
        chars.push(ch);
        assert(text@.take(i + 1) =~= text@.take(i as int).push(ch));
        i = i + 1;
    }
    assert(text@.take(text@.len() as int) =~= text@);
    chars
}

/// Whether `needle` stands in `hay` at place `at`.
fn stands_at(needle: &Vec<char>, hay: &Vec<char>, at: usize) -> (yes: bool)
    requires
        at + needle@.len() <= hay@.len(),
    ensures
        yes == (hay@.subrange(at as int, at + needle@.len()) == needle@),
{
    let len = hay.len();
    let mut k: usize = 0;
    while k < needle.len()
        invariant
            k <= needle@.len(),
            at + needle@.len() <= hay@.len() == len,
            hay@.subrange(at as int, at + k) == needle@.take(k as int),
        decreases needle@.len() - k,
    {
        if hay[at + k] != needle[k] {
            assert(hay@.subrange(at as int, at + needle@.len())[k as int] != needle@[k as int]);
            return false;
        }
        assert(hay@.subrange(at as int, at + k + 1) =~= hay@.subrange(at as int, at + k).push(
            hay@[at + k],
        ));
        assert(needle@.take(k + 1) =~= needle@.take(k as int).push(needle@[k as int]));
        k += 1;
    }
    assert(needle@.take(k as int) =~= needle@);
    true
}

/// Whether `needle` occurs in `hay`.
pub fn contains(hay: &Vec<char>, needle: &Vec<char>) -> (found: bool)
    ensures
        found == occurs(needle@, hay@),
{
    if needle.len() > hay.len() {
        return false;
    }
    let last = hay.len() - needle.len();
    let mut at: usize = 0;
    loop
        invariant
            at <= last,
            last == hay@.len() - needle@.len(),
            forall|i: int|
                0 <= i < at ==> #[trigger] hay@.subrange(i, i + needle@.len()) != needle@,
        decreases last - at,
    {
        if stands_at(needle, hay, at) {
            return true;
        }
        if at == last {
            return false;
        }
        at += 1;
    }
}

/// A query, ready to be matched.
pub struct LogFilter {
    needle: Vec<char>,
}

impl LogFilter {
    /// What is searched for: the query in lower case, without the white
    /// space around it.
    pub closed spec fn needle(&self) -> Seq<char> {
        self.needle@
    }

    /// Whether a text matches: every text matches an empty query, and
    /// any other query has to occur in the text in lower case.
    pub open spec fn accepts(&self, text: Seq<char>) -> bool {
        self.needle().len() == 0 || occurs(self.needle(), lowercased(text))
    }

    /// The filter for a query.
    pub fn new(query: &str) -> (filter: Self)
        ensures
            filter.needle() == lowercased(trimmed(query@)),
    {
        let lowered = lowercase(trim(query));
        LogFilter { needle: to_chars(lowered.as_str()) }
    }

    /// Whether the filter lets every text through.
    pub fn is_empty(&self) -> (empty: bool)
        ensures
            empty == (self.needle().len() == 0),
    {
        self.needle.len() == 0
    }

    /// Whether a text matches the query.
    pub fn matches(&self, text: &str) -> (yes: bool)
        ensures
            yes == self.accepts(text@),
    {
        if self.needle.len() == 0 {
            return true;
        }
        let lowered = lowercase(text);
        let hay = to_chars(lowered.as_str());
        contains(&hay, &self.needle)
    }
}

} // verus!
