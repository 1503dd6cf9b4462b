//! The text of the input buffer: editing it and the tests made on it.

use vstd::prelude::*;
use vstd::string::StringExecFns;

verus! {

/// Whether `c` is white space, as `char::is_whitespace` says.
pub uninterp spec fn white_space(c: char) -> bool;

/// `s` in lower case, as `str::to_lowercase` gives it.
pub uninterp spec fn lowercase_of(s: Seq<char>) -> Seq<char>;

/// Nothing but white space: what is left after trimming is empty.
pub open spec fn blank(s: Seq<char>) -> bool {
    forall|i: int| 0 <= i < s.len() ==> white_space(#[trigger] s[i])
}

/// A lower-cased answer that confirms.
pub open spec fn affirmative(lowered: Seq<char>) -> bool {
    lowered == "y"@ || lowered == "yes"@
}

/// An answer that confirms once it is lower-cased. It is not trimmed.
pub open spec fn confirms(answer: Seq<char>) -> bool {
    affirmative(lowercase_of(answer))
}

/// Calls `char::is_whitespace`. The contract only names the answer.
#[verifier::external_body]
fn is_white_space(c: char) -> (white: bool)
    ensures
        white == white_space(c),
{
    c.is_whitespace()
}

/// Calls `str::to_lowercase`. The contract only names the result.
#[verifier::external_body]
fn to_lowercase(s: &str) -> (lowered: String)
    ensures
        lowered@ == lowercase_of(s@),
{
    s.to_lowercase()
}

/// Calls `String::push`, which appends `c` to `text`.
#[verifier::external_body]
pub(crate) fn push_char(text: &mut String, c: char)
    ensures
        final(text)@ == old(text)@.push(c),
{
    text.push(c);
}

/// Calls `String::pop`, which removes the last character of `text` if
/// there is one.
#[verifier::external_body]
pub(crate) fn pop_char(text: &mut String)
    ensures
        final(text)@ == if old(text)@.len() > 0 {
            old(text)@.drop_last()
        } else {
            old(text)@
        },
{
    text.pop();
}

/// Whether `s` holds nothing but white space.
pub fn is_blank(s: &str) -> (all_white: bool)
    ensures
        all_white == blank(s@),
{
    for c in it: s.chars()
        invariant
            it.seq() == s@,
            forall|i: int| 0 <= i < it.index() ==> white_space(#[trigger] s@[i]),
    {
        if !is_white_space(c) {
            return false;
        }
    }
    true
}

/// Whether the lower-cased answer `lowered` is `y` or `yes`.
pub fn is_affirmative(lowered: &String) -> (yes: bool)
    ensures
        yes == affirmative(lowered@),
{
    let short = String::from_str("y");
    let long = String::from_str("yes");
    *lowered == short || *lowered == long
}

/// Whether `answer` confirms: lower-cased, it is `y` or `yes`.
pub fn is_confirmation(answer: &str) -> (confirmed: bool)
    ensures
        confirmed == confirms(answer@),
{
    let lowered = to_lowercase(answer);
    is_affirmative(&lowered)
}

} // verus!
