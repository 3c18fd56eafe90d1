//! What holds of the grammar for every text.

use vstd::prelude::*;
use crate::grammar::{
    at_boundary, lemma_token_len, lemma_token_len_unique, method_of, parse, target_of, token_len,
    Parsed,
};
use crate::method::Method;
use crate::request::{is_path, HTTPVersion, ParseError, RequestLineView};

verus! {

/// The version token written out character by character.
pub proof fn lemma_version_token()
    ensures
        HTTPVersion::token() == seq!['H', 'T', 'T', 'P', '/', '1', '.', '0'],
{
    reveal_strlit("HTTP/1.0");
}

/// A text that starts with the literal of `m` at a boundary has `m` as its
/// method: no two literals start with the same character.
pub proof fn lemma_method_at(m: Method, s: Seq<char>)
    requires
        at_boundary(m.token(), s),
    ensures
        method_of(s) == Some(m),
{
    Method::lemma_tokens();
    assert(s[0] == m.token()[0]);
}

/// A path and the suffix of a version, followed by any text, read back as
/// that path and version with that text left over; behind version 0.9 only
/// the empty text can follow.
pub proof fn lemma_target(m: Method, p: Seq<char>, v: HTTPVersion, rest: Seq<char>)
    requires
        is_path(p),
        v == HTTPVersion::ZeroPointNine ==> rest.len() == 0,
    ensures
        target_of(m, p + v.suffix() + rest) == Parsed::Ok(
            (RequestLineView { method: m, path: p, version: v }, rest),
        ),
{
    lemma_version_token();
    let t = p + v.suffix() + rest;
    let n = p.len() as int;
    lemma_token_len_unique(t, n);
    assert(t.take(n) =~= p);
    match v {
        HTTPVersion::ZeroPointNine => {
            assert(t.skip(n) =~= rest);
        },
        HTTPVersion::OnePointZero => {
            assert(t.skip(n).skip(1).skip(8) =~= rest);
        },
    }
}

/// A written line, followed by any text, parses to that line with that text
/// left over; behind a line of version 0.9 only the empty text can follow.
pub proof fn lemma_parse_line(v: RequestLineView, rest: Seq<char>)
    requires
        v.wf(),
        v.version == HTTPVersion::ZeroPointNine ==> rest.len() == 0,
    ensures
        parse(v.line() + rest) == Parsed::Ok((v, rest)),
{
    Method::lemma_tokens();
    let s = v.line() + rest;
    let k = v.method.token().len() as int;
    assert(s.subrange(0, k) =~= v.method.token());
    assert(s[k] == ' ');
    lemma_method_at(v.method, s);
    assert(s.skip(k).skip(1) =~= v.path + v.version.suffix() + rest);
    lemma_target(v.method, v.path, v.version, rest);
}

/// For each method `m`, each path `p` and each text `rest`: `m`, a space,
/// `p`, a space, `HTTP/1.0` and `rest` parse to method `m`, path `p` and
/// version 1.0, with `rest` left over.
pub proof fn lemma_parse_with_version(m: Method, p: Seq<char>, rest: Seq<char>)
    requires
        is_path(p),
    ensures
        parse(m.token() + seq![' '] + p + seq![' '] + HTTPVersion::token() + rest) == Parsed::Ok(
            (RequestLineView { method: m, path: p, version: HTTPVersion::OnePointZero }, rest),
        ),
{
    let v = RequestLineView { method: m, path: p, version: HTTPVersion::OnePointZero };
    lemma_parse_line(v, rest);
    assert(v.line() + rest =~= m.token() + seq![' '] + p + seq![' '] + HTTPVersion::token() + rest);
}

/// For each method `m` and each path `p`: `m`, a space and `p`, with nothing
/// behind them, parse to method `m`, path `p` and version 0.9, with nothing
/// left over.
pub proof fn lemma_parse_without_version(m: Method, p: Seq<char>)
    requires
        is_path(p),
    ensures
        parse(m.token() + seq![' '] + p) == Parsed::Ok(
            (
                RequestLineView { method: m, path: p, version: HTTPVersion::ZeroPointNine },
                Seq::<char>::empty(),
            ),
        ),
{
    let v = RequestLineView { method: m, path: p, version: HTTPVersion::ZeroPointNine };
    lemma_parse_line(v, Seq::empty());
}

/// A text fails with `UnknownMethod` exactly when its leading token, the
/// characters before its first space, is the literal of no method.
pub proof fn lemma_unknown_method(s: Seq<char>)
    ensures
        parse(s) == Parsed::Err(ParseError::UnknownMethod) <==> Method::of_token(
            s.take(token_len(s) as int),
        ) is None,
{
    Method::lemma_tokens();
    lemma_token_len(s);
    let head = s.take(token_len(s) as int);
    match method_of(s) {
        Some(m) => {
            lemma_token_len_unique(s, m.token().len() as int);
            Method::lemma_token_round_trip(m, head);
        },
        None => {
            if Method::of_token(head) is Some {
                let m = Method::of_token(head)->Some_0;
                Method::lemma_token_round_trip(m, head);
                lemma_method_at(m, s);
            }
        },
    }
}

/// A method and a space with no path behind them, the text ending there or
/// going on with another space, fail with `MalformedPath`.
pub proof fn lemma_empty_path(m: Method, t: Seq<char>)
    requires
        t.len() == 0 || t[0] == ' ',
    ensures
        parse(m.token() + seq![' '] + t) == Parsed::Err(ParseError::MalformedPath),
{
    Method::lemma_tokens();
    let s = m.token() + seq![' '] + t;
    let k = m.token().len() as int;
    assert(s.subrange(0, k) =~= m.token());
    assert(s[k] == ' ');
    lemma_method_at(m, s);
    assert(s.skip(k).skip(1) =~= t);
}

/// The literal of a method with anything but a space right behind it is no
/// method token: the text fails with `UnknownMethod`.
pub proof fn lemma_method_needs_boundary(m: Method, x: Seq<char>)
    requires
        x.len() > 0,
        x[0] != ' ',
    ensures
        parse(m.token() + x) == Parsed::Err(ParseError::UnknownMethod),
{
    Method::lemma_tokens();
    let s = m.token() + x;
    assert(s[0] == m.token()[0]);
    assert(s[m.token().len() as int] == x[0]);
    assert(!at_boundary(m.token(), s));
}

/// Where a text parses to a line, that line is well formed, the text is the
/// line written out followed by what was left over, and the line written
/// out parses to the same line again, with nothing left over.
pub proof fn lemma_round_trip(s: Seq<char>, v: RequestLineView, rest: Seq<char>)
    requires
        parse(s) == Parsed::Ok((v, rest)),
    ensures
        v.wf(),
        s == v.line() + rest,
        v.version == HTTPVersion::ZeroPointNine ==> rest.len() == 0,
        parse(v.line()) == Parsed::Ok((v, Seq::<char>::empty())),
{
    lemma_version_token();
    let m = method_of(s)->Some_0;
    let k = m.token().len() as int;
    let t = s.skip(k).skip(1);
    let n = token_len(t) as int;
    lemma_token_len(t);
    assert(v.path == t.take(n));
    assert(t.skip(n) =~= v.version.suffix() + rest);
    assert(s =~= s.subrange(0, k) + seq![' '] + t.take(n) + t.skip(n));
    lemma_parse_line(v, Seq::empty());
    assert(v.line() + Seq::<char>::empty() =~= v.line());
}

/// The texts that parse are the written lines with a text behind them: a
/// text parses to a line and a rest exactly when the line is well formed,
/// the text is the line written out followed by the rest, and the rest is
/// empty where the version is 0.9.
pub proof fn lemma_parse_accepts(s: Seq<char>, v: RequestLineView, rest: Seq<char>)
    ensures
        parse(s) == Parsed::Ok((v, rest)) <==> {
            &&& v.wf()
            &&& s == v.line() + rest
            &&& v.version == HTTPVersion::ZeroPointNine ==> rest.len() == 0
        },
{
    if parse(s) == Parsed::Ok((v, rest)) {
        lemma_round_trip(s, v, rest);
    } else if v.wf() && (v.version == HTTPVersion::ZeroPointNine ==> rest.len() == 0) {
        lemma_parse_line(v, rest);
    }
}

} // verus!
