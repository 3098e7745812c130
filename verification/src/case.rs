//! Case conversion, done by the `heck` crate.
//!
//! `heck` splits its input into Unicode words and then at underscores and
//! at lower-to-upper transitions. That takes a segmentation table to state, so
//! the two conversions are named here rather than defined: the contracts of
//! this crate say which string is converted, and `heck` says to what.

use vstd::prelude::*;

verus! {

/// What `heck` returns as the SHOUTY_SNAKE_CASE form of `s`.
pub uninterp spec fn shouty_snake_case(s: Seq<char>) -> Seq<char>;

/// What `heck` returns as the snake_case form of `s`.
pub uninterp spec fn snake_case(s: Seq<char>) -> Seq<char>;

/// Calls `heck::ShoutySnakeCase::to_shouty_snake_case` on `s`.
///
/// Trusted: the result is the conversion named [`shouty_snake_case`], a
/// function of the characters of `s` alone. The conversion allocates a new
/// string and does not fail.
#[verifier::external_body]
pub(crate) fn to_shouty_snake_case(s: &str) -> (converted: String)
    ensures
        converted@ == shouty_snake_case(s@),
{
    heck::ShoutySnakeCase::to_shouty_snake_case(s)
}

/// Calls `heck::SnakeCase::to_snake_case` on `s`.
///
/// Trusted: the result is the conversion named [`snake_case`], a function of
/// the characters of `s` alone. The conversion allocates a new string and
/// does not fail.
#[verifier::external_body]
pub(crate) fn to_snake_case(s: &str) -> (converted: String)
    ensures
        converted@ == snake_case(s@),
{
    heck::SnakeCase::to_snake_case(s)
}

} // verus!
