//! Identifier casing for the generated accessor API. The conversions
//! themselves come from the `stringcase` crate; their results are
//! functions of the input characters alone, so each is given a name
//! that the generator's contracts are stated over.
use vstd::prelude::*;

verus! {

/// What `stringcase::snake_case` returns for a given character
/// sequence.
pub uninterp spec fn snake_of(s: Seq<char>) -> Seq<char>;

/// What `stringcase::pascal_case` returns for a given character
/// sequence.
pub uninterp spec fn pascal_of(s: Seq<char>) -> Seq<char>;

/// Relies on stringcase::snake_case: the result depends on the input
/// characters alone, and an empty input gives an empty result.
#[verifier::external_body]
pub(crate) fn to_snake_case(s: &str) -> (r: String)
    ensures
        r@ == snake_of(s@),
        s@.len() == 0 ==> r@.len() == 0,
{
    stringcase::snake_case(s)
}

/// Relies on stringcase::pascal_case: the result depends on the input
/// characters alone, and an empty input gives an empty result.
#[verifier::external_body]
pub(crate) fn to_pascal_case(s: &str) -> (r: String)
    ensures
        r@ == pascal_of(s@),
        s@.len() == 0 ==> r@.len() == 0,
{
    stringcase::pascal_case(s)
}

} // verus!
