//! Putting text together.

use vstd::prelude::*;
use vstd::string::*;

verus! {

/// `String::push` appends the character to the end of the string.
pub assume_specification[ String::push ](text: &mut String, c: char)
    ensures
        final(text)@ == old(text)@.push(c),
;

/// Two string slices are equal exactly when they hold the same characters.
pub assume_specification[ <str as PartialEq>::eq ](a: &str, b: &str) -> (same: bool)
    ensures
        same == (a@ == b@),
;

/// The text `before`, then `subject`, then `after`.
pub fn framed(before: &str, subject: &str, after: &str) -> (text: String)
    ensures
        text@ == before@ + subject@ + after@,
{
    let mut text = before.to_owned();
    text.append(subject);
    text.append(after);
    text
}

/// The text `before`, then `subject`.
pub fn prefixed(before: &str, subject: &str) -> (text: String)
    ensures
        text@ == before@ + subject@,
{
    let mut text = before.to_owned();
    text.append(subject);
    text
}

/// The text `subject`, then `after`.
pub fn suffixed(subject: &str, after: &str) -> (text: String)
    ensures
        text@ == subject@ + after@,
{
    let mut text = subject.to_owned();
    text.append(after);
    text
}

} // verus!
