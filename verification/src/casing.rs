use vstd::prelude::*;

verus! {

/// The Pascal-case rendering of a name, as the case-conversion library
/// defines it: the name split into words, each word capitalized, the
/// delimiters removed. The result is a function of the characters alone.
pub uninterp spec fn pascal_of(s: Seq<char>) -> Seq<char>;

/// Relies on convert_case's `Casing::to_case` with `Case::Pascal`: a pure
/// conversion of a name's characters into their Pascal-case rendering (a
/// snake_case function name becomes the matching variant identifier).
#[verifier::external_body]
pub(crate) fn to_pascal_case(s: &str) -> (r: String)
    ensures
        r@ == pascal_of(s@),
{
    convert_case::Casing::to_case(&s, convert_case::Case::Pascal)
}

} // verus!
