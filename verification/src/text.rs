//! Texts as sequences of characters: substring search, equality and lowercasing.

use vstd::prelude::*;
use vstd::string::*;

verus! {

/// `pattern` stands in `text` starting at position `at`.
pub open spec fn found_at(text: Seq<char>, pattern: Seq<char>, at: int) -> bool {
    &&& 0 <= at
    &&& at + pattern.len() <= text.len()
    &&& text.subrange(at, at + pattern.len()) == pattern
}

/// `pattern` stands somewhere in `text`. The empty pattern stands in every text.
pub open spec fn has_substring(text: Seq<char>, pattern: Seq<char>) -> bool {
    exists|at: int| found_at(text, pattern, at)
}

/// A pattern stands in whatever is written around it.
pub proof fn lemma_found_between(before: Seq<char>, pattern: Seq<char>, after: Seq<char>)
    ensures
        found_at(before + pattern + after, pattern, before.len() as int),
        has_substring(before + pattern + after, pattern),
{
    let whole = before + pattern + after;
    let at = before.len() as int;
    assert(whole.subrange(at, at + pattern.len()) =~= pattern);
}

/// What a text holds, it still holds after more is written behind it or before it.
pub proof fn lemma_substring_survives(text: Seq<char>, more: Seq<char>, pattern: Seq<char>)
    requires
        has_substring(text, pattern),
    ensures
        has_substring(text + more, pattern),
        has_substring(more + text, pattern),
{
    let at = choose|at: int| found_at(text, pattern, at);
    assert((text + more).subrange(at, at + pattern.len()) =~= text.subrange(
        at,
        at + pattern.len(),
    ));
    assert(found_at(text + more, pattern, at));
    let shifted = more.len() + at;
    assert((more + text).subrange(shifted, shifted + pattern.len()) =~= text.subrange(
        at,
        at + pattern.len(),
    ));
    assert(found_at(more + text, pattern, shifted));
}

/// The characters of a string, in order.
pub fn chars_of(text: &str) -> (chars: Vec<char>)
    ensures
        chars@ == text@,
{
    let mut chars: Vec<char> = Vec::new();
    for c in it: text.chars()
        invariant
            it.seq() == text@,
            chars@ == it.seq().take(it.index() as int),
    {
        chars.push(c);
    }
    chars
}

/// Whether `pattern` stands in `text` at `at`.
pub fn matches_at(text: &Vec<char>, pattern: &Vec<char>, at: usize) -> (hit: bool)
    ensures
        hit == found_at(text@, pattern@, at as int),
{
    if pattern.len() > text.len() || at > text.len() - pattern.len() {
        return false;
    }
    let mut k: usize = 0;
    while k < pattern.len()
        invariant
            k <= pattern.len(),
            at + pattern.len() <= text.len(),
            forall|j: int| 0 <= j < k ==> text@[at + j] == pattern@[j],
        decreases pattern.len() - k,
    {
        if text[at + k] != pattern[k] {
            assert(text@.subrange(at as int, at + pattern.len())[k as int] == text@[at + k]);
            return false;
        }
        k += 1;
    }
    assert(text@.subrange(at as int, at + pattern.len()) =~= pattern@);
    true
}

/// The first position at which `pattern` stands in `text`, if there is one.
pub fn find(text: &Vec<char>, pattern: &Vec<char>) -> (first: Option<usize>)
    ensures
        match first {
            Some(at) => {
                &&& found_at(text@, pattern@, at as int)
                &&& forall|earlier: int| 0 <= earlier < at ==> !found_at(text@, pattern@, earlier)
            },
            None => !has_substring(text@, pattern@),
        },
{
    if pattern.len() > text.len() {
        return None;
    }
    let last: usize = text.len() - pattern.len();
    let mut at: usize = 0;
    loop
        invariant
            pattern.len() <= text.len(),
            last == text.len() - pattern.len(),
            at <= last,
            forall|earlier: int| 0 <= earlier < at ==> !found_at(text@, pattern@, earlier),
        decreases last - at,
    {
        if matches_at(text, pattern, at) {
            return Some(at);
        }
        if at == last {
            return None;
        }
        at += 1;
    }
}

/// Whether `pattern` stands somewhere in `text`.
pub fn contains(text: &str, pattern: &str) -> (held: bool)
    ensures
        held == has_substring(text@, pattern@),
{
    let text_chars = chars_of(text);
    let pattern_chars = chars_of(pattern);
    find(&text_chars, &pattern_chars).is_some()
}

/// Whether two strings hold the same characters.
pub fn same_text(left: &str, right: &str) -> (same: bool)
    ensures
        same == (left@ == right@),
{
    let left_chars = chars_of(left);
    let right_chars = chars_of(right);
    if left_chars.len() != right_chars.len() {
        return false;
    }
    let same = matches_at(&left_chars, &right_chars, 0);
    assert(left@.subrange(0, left@.len() as int) =~= left@);
    same
}

/// The lowercase form of a text, as `str::to_lowercase` of the standard library
/// gives it. It follows Unicode's mapping and may differ in length from the text.
pub uninterp spec fn lowercased(text: Seq<char>) -> Seq<char>;

/// Calls `str::to_lowercase`. Nothing is proved of the result: it is taken to
/// depend on the characters of `text` alone, and is known as [`lowercased`].
#[verifier::external_body]
pub(crate) fn lowercase(text: &str) -> (lower: String)
    ensures
        lower@ == lowercased(text@),
{
    text.to_lowercase()
}

} // verus!
