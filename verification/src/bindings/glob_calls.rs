//! Shell-style pattern matching through the `glob` crate.

use vstd::prelude::*;

verus! {

/// Whether `glob::Pattern::new` accepts `pattern`.
pub uninterp spec fn glob_pattern_valid(pattern: Seq<char>) -> bool;

/// What `glob::Pattern::matches` answers for the pattern compiled from
/// `pattern` on `path`.
pub uninterp spec fn glob_pattern_matches(pattern: Seq<char>, path: Seq<char>) -> bool;

/// Compiles `pattern` with `glob::Pattern::new` and, when that succeeds,
/// tests `path` with `Pattern::matches`. The contract claims only that the
/// outcome is a function of the two strings: `None` exactly when the pattern
/// does not compile, otherwise the match result.
#[verifier::external_body]
pub(crate) fn glob_match(pattern: &str, path: &str) -> (r: Option<bool>)
    ensures
        r is Some <==> glob_pattern_valid(pattern@),
        r matches Some(b) ==> b == glob_pattern_matches(pattern@, path@),
{
    match glob::Pattern::new(pattern) {
        Ok(p) => Some(p.matches(path)),
        Err(_) => None,
    }
}

} // verus!
