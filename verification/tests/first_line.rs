use request_line::{first_line, HTTPVersion, Method, ParseError, RequestLine};

fn line(method: Method, path: &str, version: HTTPVersion) -> RequestLine {
    RequestLine { method, path: path.to_string(), version }
}

#[test]
fn parse_http_methods() {
    assert_eq!(
        first_line("GET /index.html HTTP/1.0"),
        Ok((line(Method::Get, "/index.html", HTTPVersion::OnePointZero), ""))
    );
    assert_eq!(
        first_line("POST /index.html HTTP/1.0"),
        Ok((line(Method::Post, "/index.html", HTTPVersion::OnePointZero), ""))
    );
    assert_eq!(
        first_line("HEAD /index.html HTTP/1.0"),
        Ok((line(Method::Head, "/index.html", HTTPVersion::OnePointZero), ""))
    );
}

#[test]
fn get_with_version() {
    assert_eq!(
        first_line("GET /index.html HTTP/1.0"),
        Ok((line(Method::Get, "/index.html", HTTPVersion::OnePointZero), ""))
    );
}

#[test]
fn post_leaves_line_ending() {
    assert_eq!(
        first_line("POST /submit HTTP/1.0\r\n"),
        Ok((line(Method::Post, "/submit", HTTPVersion::OnePointZero), "\r\n"))
    );
}

#[test]
fn head_without_version() {
    assert_eq!(
        first_line("HEAD /status"),
        Ok((line(Method::Head, "/status", HTTPVersion::ZeroPointNine), ""))
    );
}

#[test]
fn delete_is_unknown() {
    assert_eq!(first_line("DELETE /x HTTP/1.0"), Err(ParseError::UnknownMethod));
}

#[test]
fn put_is_unknown() {
    assert_eq!(first_line("PUT /x HTTP/1.0"), Err(ParseError::UnknownMethod));
}

#[test]
fn empty_path_is_malformed() {
    assert_eq!(first_line("GET  HTTP/1.0"), Err(ParseError::MalformedPath));
}

#[test]
fn method_needs_boundary() {
    assert_eq!(first_line("GETX /x HTTP/1.0"), Err(ParseError::UnknownMethod));
    assert_eq!(first_line("POSTS /x"), Err(ParseError::UnknownMethod));
    assert_eq!(first_line("HEAD/x"), Err(ParseError::UnknownMethod));
}

#[test]
fn every_method_with_version_and_rest() {
    for method in [Method::Get, Method::Post, Method::Head] {
        for path in ["/", "/a/b?c=d", "*", "x"] {
            for rest in ["", "\r\n", "\r\nHost: example\r\n", " ", "X"] {
                let text = format!("{} {} HTTP/1.0{}", method.as_str(), path, rest);
                assert_eq!(
                    first_line(&text),
                    Ok((line(method, path, HTTPVersion::OnePointZero), rest))
                );
            }
        }
    }
}

#[test]
fn every_method_without_version() {
    for method in [Method::Get, Method::Post, Method::Head] {
        for path in ["/", "/a/b?c=d", "*", "x"] {
            let text = format!("{} {}", method.as_str(), path);
            assert_eq!(
                first_line(&text),
                Ok((line(method, path, HTTPVersion::ZeroPointNine), ""))
            );
        }
    }
}

#[test]
fn unknown_method_inputs() {
    assert_eq!(first_line(""), Err(ParseError::UnknownMethod));
    assert_eq!(first_line("GE"), Err(ParseError::UnknownMethod));
    assert_eq!(first_line("get /x"), Err(ParseError::UnknownMethod));
    assert_eq!(first_line(" GET /x"), Err(ParseError::UnknownMethod));
    assert_eq!(first_line("/x GET"), Err(ParseError::UnknownMethod));
}

#[test]
fn malformed_path_inputs() {
    assert_eq!(first_line("GET"), Err(ParseError::MalformedPath));
    assert_eq!(first_line("GET "), Err(ParseError::MalformedPath));
    assert_eq!(first_line("GET  /x"), Err(ParseError::MalformedPath));
    assert_eq!(first_line("POST  /x HTTP/1.0"), Err(ParseError::MalformedPath));
}

#[test]
fn unsupported_version_inputs() {
    assert_eq!(first_line("GET /x HTTP/1.1"), Err(ParseError::UnsupportedVersion));
    assert_eq!(first_line("GET /x HTTP/0.9"), Err(ParseError::UnsupportedVersion));
    assert_eq!(first_line("GET /x http/1.0"), Err(ParseError::UnsupportedVersion));
    assert_eq!(first_line("GET /x "), Err(ParseError::UnsupportedVersion));
    assert_eq!(first_line("GET /x  HTTP/1.0"), Err(ParseError::UnsupportedVersion));
    assert_eq!(first_line("GET /x HTTP/1."), Err(ParseError::UnsupportedVersion));
    assert_eq!(first_line("GET /x y"), Err(ParseError::UnsupportedVersion));
}

#[test]
fn remainder_is_not_inspected() {
    assert_eq!(
        first_line("GET /x HTTP/1.01"),
        Ok((line(Method::Get, "/x", HTTPVersion::OnePointZero), "1"))
    );
    assert_eq!(
        first_line("GET /x HTTP/1.0 and more"),
        Ok((line(Method::Get, "/x", HTTPVersion::OnePointZero), " and more"))
    );
}

#[test]
fn remainder_lies_in_the_input() {
    let text = "POST /submit HTTP/1.0\r\nHost: example\r\n";
    let (_, rest) = first_line(text).unwrap();
    assert_eq!(rest, &text[21..]);
    assert_eq!(rest.as_ptr(), text[21..].as_ptr());
}

#[test]
fn line_ends_where_the_text_ends() {
    assert_eq!(
        first_line("HEAD /status\r\n"),
        Ok((line(Method::Head, "/status\r\n", HTTPVersion::ZeroPointNine), ""))
    );
    assert_eq!(
        first_line("GET /a\tb HTTP/1.0"),
        Ok((line(Method::Get, "/a\tb", HTTPVersion::OnePointZero), ""))
    );
}

#[test]
fn path_outside_ascii() {
    assert_eq!(
        first_line("GET /caf\u{e9}/\u{65e5}\u{672c} HTTP/1.0\u{2028}"),
        Ok((
            line(Method::Get, "/caf\u{e9}/\u{65e5}\u{672c}", HTTPVersion::OnePointZero),
            "\u{2028}"
        ))
    );
    assert_eq!(
        first_line("GET \u{1f600}"),
        Ok((line(Method::Get, "\u{1f600}", HTTPVersion::ZeroPointNine), ""))
    );
    assert_eq!(first_line("GET\u{a0}/x"), Err(ParseError::UnknownMethod));
    assert_eq!(first_line("GET /x\u{a0}HTTP/1.0"),
        Ok((line(Method::Get, "/x\u{a0}HTTP/1.0", HTTPVersion::ZeroPointNine), "")));
}

#[test]
fn parsed_path_is_well_formed() {
    for text in ["GET / HTTP/1.0", "POST /a/b", "HEAD x HTTP/1.0\r\n"] {
        let (parsed, _) = first_line(text).unwrap();
        assert!(!parsed.path.is_empty());
        assert!(!parsed.path.contains(' '));
    }
}

#[test]
fn written_line_parses_back() {
    for text in ["GET /index.html HTTP/1.0", "POST /submit HTTP/1.0\r\n", "HEAD /status"] {
        let (parsed, rest) = first_line(text).unwrap();
        let written = parsed.to_line();
        assert_eq!(format!("{}{}", written, rest), text);
        assert_eq!(first_line(&written), Ok((parsed, "")));
    }
}

#[test]
fn to_line_writes_each_form() {
    assert_eq!(line(Method::Get, "/index.html", HTTPVersion::OnePointZero).to_line(), "GET /index.html HTTP/1.0");
    assert_eq!(line(Method::Post, "/submit", HTTPVersion::ZeroPointNine).to_line(), "POST /submit");
    assert_eq!(line(Method::Head, "*", HTTPVersion::OnePointZero).to_line(), "HEAD * HTTP/1.0");
}
