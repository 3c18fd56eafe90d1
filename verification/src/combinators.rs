//! The two parsers of `nom` that the request-line parser is built from.

use vstd::prelude::*;

verus! {

/// `nom::Err`, the failure of a parser of `nom`. Trusted as a type only:
/// nothing is known of what a value of it holds.
#[verifier::external_type_specification]
#[verifier::external_body]
#[verifier::reject_recursive_types(E)]
pub struct ExErr<E>(nom::Err<E>);

/// `nom::error::Error`, the place and kind of a failure. Trusted as a type
/// only: nothing is known of what a value of it holds.
#[verifier::external_type_specification]
#[verifier::external_body]
#[verifier::reject_recursive_types(I)]
pub struct ExError<I>(nom::error::Error<I>);

/// Whether a character separates the tokens of a line.
pub fn is_separator(c: char) -> (sep: bool)
    ensures
        sep == (c == ' '),
{
    c == ' '
}

/// `nom::bytes::complete::tag`, made from `lit` and applied to `input`.
/// Trusted: it succeeds exactly when `input` starts with `lit`, and then
/// hands out, in this order, the text behind the match and the match itself.
/// `nom` compares the bytes of the two texts; in UTF-8 one text starts with
/// the bytes of another exactly when it starts with its characters.
#[verifier::external_body]
pub(crate) fn tag<'a>(lit: &str, input: &'a str) -> (r: Result<
    (&'a str, &'a str),
    nom::Err<nom::error::Error<&'a str>>,
>)
    ensures
        r is Ok <==> lit@.is_prefix_of(input@),
        r matches Ok((rest, found)) ==> found@ == lit@ && rest@ == input@.skip(lit@.len() as int),
{
    nom::bytes::complete::tag(lit)(input)
}

/// `nom::bytes::complete::take_till1`, made from [`is_separator`] and applied
/// to `input`. Trusted: it succeeds exactly when `input` starts with a
/// character that is no separator, and then cuts `input` in two in front of
/// its first separator, or at its end where it holds none; it hands out, in
/// this order, the text behind the cut and the text before it.
#[verifier::external_body]
pub(crate) fn take_token<'a>(input: &'a str) -> (r: Result<
    (&'a str, &'a str),
    nom::Err<nom::error::Error<&'a str>>,
>)
    ensures
        r is Ok <==> (input@.len() > 0 && input@[0] != ' '),
        r matches Ok((rest, found)) ==> found@ + rest@ == input@,
        r matches Ok((rest, found)) ==> (forall|i: int| 0 <= i < found@.len() ==> found@[i] != ' '),
        r matches Ok((rest, found)) ==> (rest@.len() > 0 ==> rest@[0] == ' '),
{
    nom::bytes::complete::take_till1(|c: char| is_separator(c))(input)
}

} // verus!
