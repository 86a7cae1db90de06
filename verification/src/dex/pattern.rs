//! Regular expressions that mark the classes a manifest names.

use regex::Regex;
use vstd::prelude::*;

verus! {

/// A compiled regular expression of the crate `regex`. Nothing of its
/// inside is known here.
#[verifier::external_type_specification]
#[verifier::external_body]
pub struct ExRegex(Regex);

/// The error with which the crate `regex` refuses a pattern.
#[verifier::external_type_specification]
#[verifier::external_body]
pub struct ExRegexError(regex::Error);

/// Whether the regular expression `re` has a match somewhere in `haystack`:
/// what `Regex::is_match` returns.
pub uninterp spec fn regex_is_match(re: Regex, haystack: Seq<char>) -> bool;

/// What `Regex::new` returns for `pattern`: the compiled expression, or the
/// error where the pattern has a syntax error or compiles to something too
/// large.
pub uninterp spec fn regex_new(pattern: Seq<char>) -> Result<Regex, regex::Error>;

/// Calls `Regex::is_match`, which searches `haystack` for a match of `re`.
/// The result depends on the expression and the haystack alone.
#[verifier::external_body]
pub(crate) fn is_match(re: &Regex, haystack: &str) -> (b: bool)
    ensures
        b == regex_is_match(*re, haystack@),
{
    re.is_match(haystack)
}

/// Calls `Regex::new`, which compiles `pattern` with the default settings.
/// The result depends on the pattern alone.
#[verifier::external_body]
pub(crate) fn compile(pattern: &str) -> (r: Result<Regex, regex::Error>)
    ensures
        r == regex_new(pattern@),
{
    Regex::new(pattern)
}

/// Some expression of `regexes` has a match in `text`.
pub open spec fn some_match(regexes: Seq<Regex>, text: Seq<char>) -> bool {
    exists|i: int| 0 <= i < regexes.len() && regex_is_match(#[trigger] regexes[i], text)
}

/// Whether some expression of `regexes` has a match in `text`.
pub fn any_match(regexes: &Vec<Regex>, text: &str) -> (b: bool)
    ensures
        b == some_match(regexes@, text@),
{
    let mut i: usize = 0;
    while i < regexes.len()
        invariant
            i <= regexes@.len(),
            forall|k: int| 0 <= k < i ==> !regex_is_match(#[trigger] regexes@[k], text@),
        decreases regexes.len() - i,
    {
        if is_match(&regexes[i], text) {
            return true;
        }
        i += 1;
    }
    false
}

} // verus!
