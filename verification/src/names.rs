//! Name normalization for modules and their files.

use vstd::prelude::*;

verus! {

/// What the snake-case conversion returns for a given string.  The value
/// is determined by the characters of the input alone.
pub uninterp spec fn snake_of(s: Seq<char>) -> Seq<char>;

/// Relies on heck's `ToSnakeCase` for `str`: a pure conversion of the
/// input's characters, lowercasing words and joining them with
/// underscores.
#[verifier::external_body]
pub(crate) fn to_snake_case(s: &str) -> (r: String)
    ensures
        r@ == snake_of(s@),
{
    heck::ToSnakeCase::to_snake_case(s)
}

} // verus!
