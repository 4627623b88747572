//! The regular-expression engine, as far as the policies need it.
//!
//! Nothing in this file is proved. Each item states what is taken on trust
//! from the `regex` crate; the rest of the library is verified against it.

use vstd::prelude::*;
use regex::bytes::Regex;

verus! {

/// `regex::bytes::Regex`, a compiled pattern. Its inside is not visible to
/// the verifier; a value is only ever handed from `compile` to `is_match`.
#[verifier::external_type_specification]
#[verifier::external_body]
pub struct ExRegex(regex::bytes::Regex);

/// `regex::Error`, the reason a pattern was not compiled.
#[verifier::external_type_specification]
#[verifier::external_body]
pub struct ExRegexError(regex::Error);

/// What `regex::bytes::Regex::new` returns for `pattern`: the compiled
/// pattern, or the error that says why there is none.
pub uninterp spec fn compiled(pattern: Seq<char>) -> Result<Regex, regex::Error>;

/// What `regex::bytes::Regex::is_match` returns: whether `regex` matches
/// anywhere in `haystack`.
pub uninterp spec fn accepts(regex: Regex, haystack: Seq<u8>) -> bool;

/// Calls `regex::bytes::Regex::new`.
///
/// Trusted: compiling depends on the pattern alone, so the same pattern
/// always gives the same outcome. Nothing is claimed about which patterns
/// compile.
#[verifier::external_body]
pub(crate) fn compile(pattern: &str) -> (r: Result<Regex, regex::Error>)
    ensures
        r == compiled(pattern@),
{
    Regex::new(pattern)
}

/// Calls `regex::bytes::Regex::is_match`.
///
/// Trusted: the search depends on the compiled pattern and the bytes alone,
/// and returns for every haystack, valid text or not. Nothing is claimed
/// about which haystacks match.
#[verifier::external_body]
pub(crate) fn is_match(regex: &Regex, haystack: &[u8]) -> (found: bool)
    ensures
        found == accepts(*regex, haystack@),
{
    regex.is_match(haystack)
}

} // verus!
