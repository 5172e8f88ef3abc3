//! Regular expressions of the `regex` crate, as far as this library uses
//! them: a pattern is compiled, and the expression is searched for in a
//! haystack. What the crate does is taken on trust here, under two names.

use regex::Regex;
use vstd::prelude::*;

verus! {

/// `regex::Regex`, a compiled expression. Nothing inside it is looked at
/// here: it goes from `Regex::new` to `Regex::is_match` as it is.
#[verifier::external_type_specification]
#[verifier::external_body]
pub struct ExRegex(regex::Regex);

/// `regex::Error`, which `Regex::new` returns for a pattern that it refuses.
#[verifier::external_type_specification]
#[verifier::external_body]
pub struct ExRegexError(regex::Error);

/// The expression that `Regex::new` makes of a pattern with these
/// characters, or `None` where it refuses the pattern.
pub uninterp spec fn compiled(pattern: Seq<char>) -> Option<Regex>;

/// Whether `Regex::is_match` finds a match of `expression` anywhere in a
/// haystack with these characters.
pub uninterp spec fn finds_match(expression: Regex, haystack: Seq<char>) -> bool;

/// `Regex::new` compiles a pattern, or returns an error where the pattern is
/// not valid or its expression would be too large. Whether it does, and the
/// expression that comes out, depend on the pattern alone; `compiled` names
/// them. Which patterns are accepted, and what their expressions match, is
/// not said.
pub assume_specification[ Regex::new ](re: &str) -> (r: Result<Regex, regex::Error>)
    ensures
        r matches Ok(expression) ==> compiled(re@) == Some(expression),
        r is Err ==> compiled(re@) is None,
;

/// `Regex::is_match` returns true if and only if the expression has a match
/// anywhere in the haystack. The answer depends on the expression and the
/// haystack alone; `finds_match` names it.
pub assume_specification[ Regex::is_match ](expression: &Regex, haystack: &str) -> (found: bool)
    ensures
        found == finds_match(*expression, haystack@),
;

} // verus!
