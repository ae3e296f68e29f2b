//! String comparisons that the option rules are built from.

use vstd::prelude::*;

verus! {

/// Calls `==` of the standard library on two `str` values (`PartialEq::eq`). Assumed of
/// it, not proved: the result is true exactly when both hold the same characters in the
/// same order.
#[verifier::external_body]
pub(crate) fn str_eq(a: &str, b: &str) -> (r: bool)
    ensures
        r == (a@ == b@),
{
    a == b
}

/// Calls `str::starts_with` of the standard library with a string as the pattern.
/// Assumed of it, not proved: the result is true exactly when the characters of `prefix`
/// are the first characters of `s`.
#[verifier::external_body]
pub(crate) fn starts_with(s: &str, prefix: &str) -> (r: bool)
    ensures
        r == prefix@.is_prefix_of(s@),
{
    s.starts_with(prefix)
}

/// Calls `str::ends_with` of the standard library with a string as the pattern.
/// Assumed of it, not proved: the result is true exactly when the characters of `suffix`
/// are the last characters of `s`.
#[verifier::external_body]
pub(crate) fn ends_with(s: &str, suffix: &str) -> (r: bool)
    ensures
        r == suffix@.is_suffix_of(s@),
{
    s.ends_with(suffix)
}

} // verus!
