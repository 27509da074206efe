use dehashed_rs::{escape, Query, SearchType};

fn simple(s: &str) -> SearchType {
    SearchType::Simple(s.to_string())
}

#[test]
fn escape_prefixes_reserved_character() {
    assert_eq!(escape("a+b"), "a\\+b");
}

#[test]
fn escape_every_reserved_character() {
    let reserved = "+-=&|><!(){}[]^\"~*?:\\";
    for c in reserved.chars() {
        let text = format!("x{c}y");
        assert_eq!(escape(&text), format!("x\\{c}y"));
        assert_eq!(simple(&text).to_string(), format!("x\\{c}y"));
    }
}

#[test]
fn escape_keeps_other_characters() {
    assert_eq!(escape("abc XYZ 019 .,;@#$%_/'é"), "abc XYZ 019 .,;@#$%_/'é");
    assert_eq!(escape(""), "");
}

#[test]
fn exact_is_quoted_after_escaping() {
    assert_eq!(SearchType::Exact("a(b".to_string()).to_string(), "\"a\\(b\"");
    assert_eq!(SearchType::Exact("x y".to_string()).to_string(), "\"x y\"");
}

#[test]
fn regex_is_wrapped_in_slashes() {
    assert_eq!(SearchType::Regex("a.*".to_string()).to_string(), "/a.\\*/");
}

#[test]
fn or_joins_with_or() {
    let t = SearchType::Or(vec![simple("a"), SearchType::Exact("b".to_string())]);
    assert_eq!(t.to_string(), "a OR \"b\"");
}

#[test]
fn and_joins_with_space() {
    let t = SearchType::And(vec![simple("a"), simple("b"), simple("c")]);
    assert_eq!(t.to_string(), "a b c");
}

#[test]
fn nested_and_empty_lists() {
    let t = SearchType::Or(vec![
        SearchType::And(vec![simple("a"), simple("b")]),
        simple("c"),
    ]);
    assert_eq!(t.to_string(), "a b OR c");
    assert_eq!(SearchType::Or(vec![]).to_string(), "");
}

#[test]
fn domain_query() {
    assert_eq!(Query::Domain(simple("example.com")).to_string(), "domain:example.com");
}

#[test]
fn query_field_names() {
    let cases = vec![
        (Query::Email(simple("v")), "email:v"),
        (Query::IpAddress(simple("v")), "ip_address:v"),
        (Query::Username(simple("v")), "username:v"),
        (Query::Password(simple("v")), "password:v"),
        (Query::HashedPassword(simple("v")), "hashed_password:v"),
        (Query::Name(simple("v")), "name:v"),
        (Query::Domain(simple("v")), "domain:v"),
        (Query::Vin(simple("v")), "vin:v"),
        (Query::Phone(simple("v")), "phone:v"),
        (Query::Address(simple("v")), "address:v"),
    ];
    for (q, expected) in cases {
        assert_eq!(q.to_string(), expected);
    }
}

#[test]
fn query_escapes_its_term() {
    assert_eq!(Query::Email(simple("a@b:c")).to_string(), "email:a@b\\:c");
}
