//! The grammar of a request line, over sequences of characters.
//!
//! ```text
//! request-line = method SP path [ SP version ]
//! method       = "GET" | "POST" | "HEAD"
//! path         = 1*( any character but SP )
//! version      = "HTTP/1.0"
//! ```
//!
//! A line ends where the text ends: a carriage return or a line feed is a
//! character like any other and belongs to the token it stands in.

use vstd::prelude::*;
use crate::method::Method;
use crate::request::{HTTPVersion, ParseError, RequestLineView};

verus! {

/// What parsing a text gives: the request line and the text behind it, or
/// the reason why the text starts with no request line.
pub type Parsed = Result<(RequestLineView, Seq<char>), ParseError>;

/// What reading a version gives: the version and the text behind it, or the
/// reason why the text stands for no version.
pub type Versioned = Result<(HTTPVersion, Seq<char>), ParseError>;

/// The number of characters at the start of `s` before its first space, or
/// all of `s` where it holds no space.
pub open spec fn token_len(s: Seq<char>) -> nat
    decreases s.len(),
{
    if s.len() == 0 || s[0] == ' ' {
        0
    } else {
        1 + token_len(s.drop_first())
    }
}

/// `s` starts with `lit`, and a space or the end of the text follows.
pub open spec fn at_boundary(lit: Seq<char>, s: Seq<char>) -> bool {
    lit.is_prefix_of(s) && (s.len() == lit.len() || s[lit.len() as int] == ' ')
}

/// The first method, in the order GET, POST, HEAD, whose literal starts `s`
/// and ends at a boundary.
pub open spec fn method_of(s: Seq<char>) -> Option<Method> {
    if at_boundary(Method::Get.token(), s) {
        Some(Method::Get)
    } else if at_boundary(Method::Post.token(), s) {
        Some(Method::Post)
    } else if at_boundary(Method::Head.token(), s) {
        Some(Method::Head)
    } else {
        None
    }
}

/// The version that the text behind a path stands for, and what is left of
/// that text. Nothing at all is version 0.9; a space and `HTTP/1.0` are
/// version 1.0, whatever comes after them.
pub open spec fn version_of(t: Seq<char>) -> Versioned {
    if t.len() == 0 {
        Ok((HTTPVersion::ZeroPointNine, t))
    } else if t[0] == ' ' && HTTPVersion::token().is_prefix_of(t.skip(1)) {
        Ok((HTTPVersion::OnePointZero, t.skip(1).skip(HTTPVersion::token().len() as int)))
    } else {
        Err(ParseError::UnsupportedVersion)
    }
}

/// The path at the start of `t`, the version behind it, and what is left.
pub open spec fn target_of(method: Method, t: Seq<char>) -> Parsed {
    let n = token_len(t) as int;
    if n == 0 {
        Err(ParseError::MalformedPath)
    } else {
        match version_of(t.skip(n)) {
            Ok((version, rest)) => Ok((RequestLineView { method, path: t.take(n), version }, rest)),
            Err(e) => Err(e),
        }
    }
}

/// What a text parses to: the request line at its start and the text behind
/// it, or the reason why it starts with none.
pub open spec fn parse(s: Seq<char>) -> Parsed {
    match method_of(s) {
        None => Err(ParseError::UnknownMethod),
        Some(method) => {
            let t = s.skip(method.token().len() as int);
            if t.len() == 0 || t[0] != ' ' {
                Err(ParseError::MalformedPath)
            } else {
                target_of(method, t.skip(1))
            }
        },
    }
}

/// The leading token of a text lies within the text, holds no space, and
/// ends in front of a space or at the end of the text.
pub proof fn lemma_token_len(s: Seq<char>)
    ensures
        token_len(s) <= s.len(),
        forall|i: int| 0 <= i < token_len(s) ==> s[i] != ' ',
        token_len(s) < s.len() ==> s[token_len(s) as int] == ' ',
    decreases s.len(),
{
    if s.len() == 0 || s[0] == ' ' {
    } else {
        let t = s.drop_first();
        lemma_token_len(t);
        assert forall|i: int| 0 <= i < token_len(s) implies s[i] != ' ' by {
            if i > 0 {
                assert(s[i] == t[i - 1]);
            }
        }
    }
}

/// A cut that leaves no space before it, and a space or nothing right
/// behind it, is the end of the leading token.
pub proof fn lemma_token_len_unique(s: Seq<char>, n: int)
    requires
        0 <= n <= s.len(),
        forall|i: int| 0 <= i < n ==> s[i] != ' ',
        n < s.len() ==> s[n] == ' ',
    ensures
        token_len(s) == n,
    decreases s.len(),
{
    if n == 0 {
    } else {
        let t = s.drop_first();
        lemma_token_len_unique(t, n - 1);
    }
}

} // verus!
