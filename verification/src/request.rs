//! The parsed request line and the ways in which parsing fails.

use vstd::prelude::*;
use crate::method::Method;

verus! {

/// The protocol version of a request.
#[derive(Debug, PartialEq, Eq, Clone, Copy, Structural)]
pub enum HTTPVersion {
    /// The legacy form: the line carries no version token at all.
    ZeroPointNine,
    /// The line carries the token `HTTP/1.0`.
    OnePointZero,
}

impl HTTPVersion {
    /// The version token, `HTTP/1.0`.
    pub open spec fn token() -> Seq<char> {
        "HTTP/1.0"@
    }

    /// What a version adds to a line behind the path: a space and the
    /// version token, or nothing.
    pub open spec fn suffix(self) -> Seq<char> {
        match self {
            HTTPVersion::ZeroPointNine => Seq::empty(),
            HTTPVersion::OnePointZero => seq![' '] + HTTPVersion::token(),
        }
    }
}

/// Why a text is not a request line.
#[derive(Debug, PartialEq, Eq, Clone, Copy, Structural)]
pub enum ParseError {
    /// The text does not start with the literal of a method that is followed
    /// by a space or by the end of the text.
    UnknownMethod,
    /// The method is not followed by one space and then at least one
    /// character that is not a space.
    MalformedPath,
    /// Something follows the path that is not a space and `HTTP/1.0`.
    UnsupportedVersion,
}

/// A request target: at least one character, none of them a space.
pub open spec fn is_path(p: Seq<char>) -> bool {
    p.len() >= 1 && forall|i: int| 0 <= i < p.len() ==> p[i] != ' '
}

/// A request line: method, target and version.
#[derive(Debug, PartialEq, Eq)]
pub struct RequestLine {
    pub method: Method,
    pub path: String,
    pub version: HTTPVersion,
}

/// A request line with its path as a sequence of characters.
pub struct RequestLineView {
    pub method: Method,
    pub path: Seq<char>,
    pub version: HTTPVersion,
}

impl RequestLineView {
    /// The path is a request target.
    pub open spec fn wf(self) -> bool {
        is_path(self.path)
    }

    /// The line written out: `METHOD SP PATH`, then `SP HTTP/1.0` for
    /// version 1.0.
    pub open spec fn line(self) -> Seq<char> {
        self.method.token() + seq![' '] + self.path + self.version.suffix()
    }
}

impl View for RequestLine {
    type V = RequestLineView;

    open spec fn view(&self) -> RequestLineView {
        RequestLineView { method: self.method, path: self.path@, version: self.version }
    }
}

impl RequestLine {
    /// The path is a request target. Every line that the parser returns is
    /// well formed; one built by hand need not be.
    pub open spec fn wf(&self) -> bool {
        self@.wf()
    }

    /// Writes the line out: the method's literal, a space and the path, then
    /// a space and `HTTP/1.0` where the version is 1.0.
    pub fn to_line(&self) -> (line: String)
        ensures
            line@ == self@.line(),
    {
        let mut line = String::from_str(self.method.as_str());
        line.append(" ");
        line.append(self.path.as_str());
        match self.version {
            HTTPVersion::ZeroPointNine => {},
            HTTPVersion::OnePointZero => {
                line.append(" ");
                line.append("HTTP/1.0");
            },
        }
        proof {
            reveal_strlit(" ");
        }
        line
    }
}

} // verus!
