//! Questions about text that the standard library answers.

use vstd::prelude::*;
use vstd::string::StringExecFns;

verus! {

/// Whether `part` stands in `text` at position `i`.
pub open spec fn occurs_at(text: Seq<char>, part: Seq<char>, i: int) -> bool {
    0 <= i && i + part.len() <= text.len() && text.subrange(i, i + part.len()) == part
}

/// Whether `part` stands somewhere in `text`.
pub open spec fn contains_text(text: Seq<char>, part: Seq<char>) -> bool {
    exists|i: int| occurs_at(text, part, i)
}

/// Whether `text` begins with `part`.
pub open spec fn starts_with_text(text: Seq<char>, part: Seq<char>) -> bool {
    occurs_at(text, part, 0)
}

/// Whether `text` ends with `part`.
pub open spec fn ends_with_text(text: Seq<char>, part: Seq<char>) -> bool {
    occurs_at(text, part, text.len() - part.len())
}

/// `text` in lower case.
pub uninterp spec fn lowercase(text: Seq<char>) -> Seq<char>;

/// `text` with every occurrence of `from` replaced by `to`, for a `from`
/// that is not empty. The occurrences are taken from the left, and none
/// overlaps the one before it: where the text begins with `from`, the result
/// is `to` and then what the rest gives; else it is the first character and
/// then what the rest gives.
pub open spec fn replaced(text: Seq<char>, from: Seq<char>, to: Seq<char>) -> Seq<char>
    decreases text.len(),
{
    if from.len() == 0 || text.len() < from.len() {
        text
    } else if text.subrange(0, from.len() as int) == from {
        to + replaced(text.subrange(from.len() as int, text.len() as int), from, to)
    } else {
        seq![text[0]] + replaced(text.subrange(1, text.len() as int), from, to)
    }
}

/// `str::contains` with a string as the pattern: whether `part` stands
/// somewhere in `text`.
#[verifier::external_body]
pub(crate) fn text_contains(text: &str, part: &str) -> (found: bool)
    ensures
        found == contains_text(text@, part@),
{
    text.contains(part)
}

/// `str::starts_with` with a string as the pattern: whether `text` begins
/// with `part`.
#[verifier::external_body]
pub(crate) fn text_starts_with(text: &str, part: &str) -> (found: bool)
    ensures
        found == starts_with_text(text@, part@),
{
    text.starts_with(part)
}

/// `str::ends_with` with a string as the pattern: whether `text` ends with
/// `part`.
#[verifier::external_body]
pub(crate) fn text_ends_with(text: &str, part: &str) -> (found: bool)
    ensures
        found == ends_with_text(text@, part@),
{
    text.ends_with(part)
}

/// `str::to_lowercase`. The result is taken to be a function of the text
/// alone.
#[verifier::external_body]
pub(crate) fn to_lowercase(text: &str) -> (lowered: String)
    ensures
        lowered@ == lowercase(text@),
{
    text.to_lowercase()
}

/// `str::replace` with strings as the pattern and the replacement, for a
/// pattern that is not empty: every occurrence of the pattern, taken from
/// the left without overlap, is replaced.
#[verifier::external_body]
pub(crate) fn replace(text: &str, from: &str, to: &str) -> (result: String)
    requires
        from@.len() > 0,
    ensures
        result@ == replaced(text@, from@, to@),
{
    text.replace(from, to)
}

/// Whether two texts are the same.
pub fn same_text(a: &str, b: &str) -> (same: bool)
    ensures
        same == (a@ == b@),
{
    String::from_str(a) == String::from_str(b)
}

/// Whether `word` is one of `words`.
pub open spec fn is_one_of(word: Seq<char>, words: Seq<Seq<char>>) -> bool {
    exists|i: int| 0 <= i < words.len() && words[i] == word
}

} // verus!
