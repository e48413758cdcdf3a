//! The compiled text pattern that a column filter matches headers against.

use regex::Regex;
use vstd::prelude::*;

verus! {

/// `regex::Regex`, a compiled pattern. Nothing inside it is visible here; it
/// is carried through and handed to the two functions below.
#[verifier::external_type_specification]
#[verifier::external_body]
pub struct ExRegex(regex::Regex);

/// Whether `pattern` finds a match anywhere in `text`.
///
/// The name stands for what `Regex::is_match` answers. It takes the compiled
/// pattern itself, not its text: how a pattern matches also depends on the
/// options it was compiled with, which its text does not show.
pub uninterp spec fn pattern_matches(pattern: Regex, text: Seq<char>) -> bool;

/// `Regex::is_match`: true if and only if the pattern has a match somewhere
/// in the text. Nothing is proved of the matching itself; the answer is only
/// given the name [`pattern_matches`], as a function of the pattern and the
/// text.
#[verifier::external_body]
pub(crate) fn is_match(pattern: &Regex, text: &str) -> (found: bool)
    ensures
        found == pattern_matches(*pattern, text@),
{
    pattern.is_match(text)
}

/// `Regex::clone`: the copy is the same pattern, so it matches the same texts.
#[verifier::external_body]
pub(crate) fn clone_pattern(pattern: &Regex) -> (copy: Regex)
    ensures
        copy == *pattern,
{
    pattern.clone()
}

} // verus!
