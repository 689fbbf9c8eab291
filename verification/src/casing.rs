//! Case conversion, delegated to the `convert_case` crate.
//!
//! What these calls return is a pure function of the input characters, so
//! each result is given a name that contracts can speak of exactly.

use convert_case::Casing;
use vstd::prelude::*;

verus! {

/// The text in CONSTANT_CASE (upper snake case), as `convert_case` defines
/// the word boundaries.
pub uninterp spec fn constant_case_of(s: Seq<char>) -> Seq<char>;

/// The text in UpperCamelCase, as `convert_case` defines the word
/// boundaries.
pub uninterp spec fn upper_camel_of(s: Seq<char>) -> Seq<char>;

/// Relies on `convert_case`'s `Casing::to_case` with `Case::Constant`:
/// words split at the crate's default boundaries, upper-cased, joined with
/// underscores.  The result depends on the characters alone.
#[verifier::external_body]
pub(crate) fn to_constant_case(s: &str) -> (r: String)
    ensures
        r@ == constant_case_of(s@),
{
    s.to_case(convert_case::Case::Constant)
}

/// Relies on `convert_case`'s `Casing::to_case` with `Case::UpperCamel`:
/// words split at the crate's default boundaries, capitalized, joined
/// without a separator.  The result depends on the characters alone.
#[verifier::external_body]
pub(crate) fn to_upper_camel_case(s: &str) -> (r: String)
    ensures
        r@ == upper_camel_of(s@),
{
    s.to_case(convert_case::Case::UpperCamel)
}

} // verus!
