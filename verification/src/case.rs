//! Lowercase forms of strings.

use vstd::prelude::*;

verus! {

/// The lowercase form that `str::to_lowercase` gives a string with these
/// characters.
pub uninterp spec fn lowercase(s: Seq<char>) -> Seq<char>;

/// `str::to_lowercase` returns the lowercase form of a string as Unicode
/// defines it. The form depends on the string's characters alone;
/// `lowercase` names it. What the form is for a given string is not said.
pub assume_specification[ str::to_lowercase ](s: &str) -> (lowered: String)
    ensures
        lowered@ == lowercase(s@),
;

} // verus!
