//! Parsing of the request line of an HTTP/0.9 or HTTP/1.0 request:
//! `METHOD SP PATH [SP "HTTP/1.0"]`.
//!
//! The grammar is stated over sequences of characters in [`grammar`]; the
//! parser in [`parser`] is proved to compute exactly what the grammar says.

mod text;
pub mod method;
pub mod request;
pub mod grammar;
pub mod combinators;
pub mod parser;
pub mod laws;

pub use method::Method;
pub use parser::first_line;
pub use request::{HTTPVersion, ParseError, RequestLine, RequestLineView};
