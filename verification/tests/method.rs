use request_line::Method;

#[test]
fn as_str_gives_the_literal() {
    assert_eq!(Method::Get.as_str(), "GET");
    assert_eq!(Method::Post.as_str(), "POST");
    assert_eq!(Method::Head.as_str(), "HEAD");
}

#[test]
fn from_str_reads_the_literal() {
    assert_eq!(Method::from_str("GET"), Some(Method::Get));
    assert_eq!(Method::from_str("POST"), Some(Method::Post));
    assert_eq!(Method::from_str("HEAD"), Some(Method::Head));
}

#[test]
fn from_str_refuses_other_text() {
    for text in ["", "get", "Get", "GE", "GETX", "GET ", " GET", "PUT", "DELETE", "POSTHEAD"] {
        assert_eq!(Method::from_str(text), None);
    }
}

#[test]
fn literal_and_method_determine_each_other() {
    for method in Method::candidates() {
        assert_eq!(Method::from_str(method.as_str()), Some(method));
    }
    for text in ["GET", "POST", "HEAD"] {
        assert_eq!(Method::from_str(text).unwrap().as_str(), text);
    }
}

#[test]
fn candidates_come_in_order() {
    assert_eq!(Method::candidates(), [Method::Get, Method::Post, Method::Head]);
}
