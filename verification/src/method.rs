//! The request methods and their literals.

use vstd::prelude::*;
use crate::text::str_eq;

verus! {

/// A request method. The set is closed: each variant has exactly one
/// literal, and each literal names exactly one variant.
#[derive(Debug, PartialEq, Eq, Clone, Copy, Structural)]
pub enum Method {
    Get,
    Post,
    Head,
}

impl Method {
    /// The literal of a method, as a sequence of characters.
    pub open spec fn token(self) -> Seq<char> {
        match self {
            Method::Get => "GET"@,
            Method::Post => "POST"@,
            Method::Head => "HEAD"@,
        }
    }

    /// The method that a sequence of characters names, if any.
    pub open spec fn of_token(t: Seq<char>) -> Option<Method> {
        if t == Method::Get.token() {
            Some(Method::Get)
        } else if t == Method::Post.token() {
            Some(Method::Post)
        } else if t == Method::Head.token() {
            Some(Method::Head)
        } else {
            None
        }
    }

    /// The methods in the order in which a parser tries them.
    pub open spec fn order() -> Seq<Method> {
        seq![Method::Get, Method::Post, Method::Head]
    }

    /// The canonical upper-case literal of the method.
    pub fn as_str(&self) -> (s: &'static str)
        ensures
            s@ == self.token(),
    {
        match self {
            Method::Get => "GET",
            Method::Post => "POST",
            Method::Head => "HEAD",
        }
    }

    /// The method whose literal is exactly `method`; `None` for every other
    /// text, whatever its case or length.
    pub fn from_str(method: &str) -> (m: Option<Method>)
        ensures
            m == Method::of_token(method@),
    {
        if str_eq(method, "GET") {
            Some(Method::Get)
        } else if str_eq(method, "POST") {
            Some(Method::Post)
        } else if str_eq(method, "HEAD") {
            Some(Method::Head)
        } else {
            None
        }
    }

    /// The three methods, in the order of [`Method::order`].
    pub fn candidates() -> (all: [Method; 3])
        ensures
            all@ == Method::order(),
    {
        [Method::Get, Method::Post, Method::Head]
    }

    /// The literals written out character by character.
    pub proof fn lemma_tokens()
        ensures
            Method::Get.token() == seq!['G', 'E', 'T'],
            Method::Post.token() == seq!['P', 'O', 'S', 'T'],
            Method::Head.token() == seq!['H', 'E', 'A', 'D'],
    {
        reveal_strlit("GET");
        reveal_strlit("POST");
        reveal_strlit("HEAD");
    }

    /// Literal and method determine each other: the literal of a method
    /// names that method, and a text that names a method is its literal.
    pub proof fn lemma_token_round_trip(m: Method, t: Seq<char>)
        ensures
            Method::of_token(m.token()) == Some(m),
            Method::of_token(t) == Some(m) <==> t == m.token(),
    {
        Method::lemma_tokens();
    }
}

} // verus!
