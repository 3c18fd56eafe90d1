//! The request-line parser.

use vstd::prelude::*;
use crate::combinators::{tag, take_token};
use crate::grammar::{
    at_boundary, lemma_token_len_unique, method_of, parse, version_of, Parsed, Versioned,
};
use crate::laws::lemma_round_trip;
use crate::method::Method;
use crate::request::{HTTPVersion, ParseError, RequestLine};

verus! {

/// Takes one space off the start of `input`.
fn space(input: &str) -> (r: Option<&str>)
    ensures
        r is Some <==> (input@.len() > 0 && input@[0] == ' '),
        r matches Some(rest) ==> rest@ == input@.skip(1),
{
    proof {
        reveal_strlit(" ");
    }
    match tag(" ", input) {
        Ok((rest, _)) => {
            assert(input@.subrange(0, 1)[0] == ' ');
            Some(rest)
        },
        Err(_) => None,
    }
}

/// Whether a token may end in front of `rest`: at the end of the text or in
/// front of a space.
fn ends_token(rest: &str) -> (b: bool)
    ensures
        b == (rest@.len() == 0 || rest@[0] == ' '),
{
    rest.is_empty() || space(rest).is_some()
}

/// Tries the methods in their order and takes the first whose literal
/// starts `input` and ends at a boundary.
fn method(input: &str) -> (r: Option<(Method, &str)>)
    ensures
        r matches Some((m, _)) ==> method_of(input@) == Some(m),
        r matches Some((m, rest)) ==> rest@ == input@.skip(m.token().len() as int),
        r is None ==> method_of(input@) is None,
{
    let all = Method::candidates();
    let mut i: usize = 0;
    while i < 3
        invariant
            i <= 3,
            all@ == Method::order(),
            forall|j: int| 0 <= j < i ==> !at_boundary(#[trigger] all@[j].token(), input@),
        decreases 3 - i,
    {
        let m = all[i];
        match tag(m.as_str(), input) {
            Ok((rest, _)) => {
                if ends_token(rest) {
                    return Some((m, rest));
                }
            },
            Err(_) => {},
        }
        i += 1;
    }
    None
}

/// Reads the version behind a path: nothing, or a space and `HTTP/1.0`.
fn version(input: &str) -> (r: Result<(HTTPVersion, &str), ParseError>)
    ensures
        r matches Ok((v, rest)) ==> version_of(input@) == Versioned::Ok((v, rest@)),
        r matches Err(e) ==> version_of(input@) == Versioned::Err(e),
{
    if input.is_empty() {
        return Ok((HTTPVersion::ZeroPointNine, input));
    }
    match space(input) {
        Some(token) => match tag("HTTP/1.0", token) {
            Ok((rest, _)) => Ok((HTTPVersion::OnePointZero, rest)),
            Err(_) => Err(ParseError::UnsupportedVersion),
        },
        None => Err(ParseError::UnsupportedVersion),
    }
}

/// Parses the request line at the start of `input`.
///
/// On success the result is the line and the text behind it, which is handed
/// back as it stands and never looked at. On failure nothing is consumed:
/// the caller still holds `input`.
///
/// The result is what [`parse`] says of the characters of `input`:
/// `UnknownMethod` where `input` does not start with `GET`, `POST` or `HEAD`
/// at a boundary, `MalformedPath` where no single space and path follow the
/// method, `UnsupportedVersion` where the path is followed by anything but
/// the end of the text or a space and `HTTP/1.0`.
pub fn first_line(input: &str) -> (r: Result<(RequestLine, &str), ParseError>)
    ensures
        r matches Ok((line, rest)) ==> parse(input@) == Parsed::Ok((line@, rest@)),
        r matches Err(e) ==> parse(input@) == Parsed::Err(e),
        r matches Ok((line, _)) ==> line.wf(),
{
    let (method, after_method) = match method(input) {
        Some(found) => found,
        None => {
            return Err(ParseError::UnknownMethod);
        },
    };
    let target = match space(after_method) {
        Some(target) => target,
        None => {
            return Err(ParseError::MalformedPath);
        },
    };
    let (after_path, path) = match take_token(target) {
        Ok(found) => found,
        Err(_) => {
            return Err(ParseError::MalformedPath);
        },
    };
    proof {
        let n = path@.len() as int;
        lemma_token_len_unique(target@, n);
        assert(target@.take(n) =~= path@);
        assert(target@.skip(n) =~= after_path@);
    }
    match version(after_path) {
        Ok((version, rest)) => {
            let line = RequestLine { method, path: path.to_owned(), version };
            proof {
                lemma_round_trip(input@, line@, rest@);
            }
            Ok((line, rest))
        },
        Err(e) => Err(e),
    }
}

} // verus!
