use anthropic::error::DeserializationError;
use anthropic::json::{same_text, Json};

fn text(s: &str) -> Json {
    Json::Text(s.to_string())
}

#[test]
fn parse_reads_every_kind_of_value() {
    let doc = Json::parse(r#"{"a":null,"b":[true,false],"c":7,"d":"x","e":{},"f":[]}"#).unwrap();
    assert_eq!(
        doc,
        Json::Object(vec![
            ("a".to_string(), Json::Null),
            ("b".to_string(), Json::Array(vec![Json::Bool(true), Json::Bool(false)])),
            ("c".to_string(), Json::Unsigned(7)),
            ("d".to_string(), text("x")),
            ("e".to_string(), Json::Object(vec![])),
            ("f".to_string(), Json::Array(vec![])),
        ])
    );
}

#[test]
fn parse_keeps_only_unsigned_numbers() {
    assert_eq!(Json::parse("0"), Ok(Json::Unsigned(0)));
    assert_eq!(Json::parse("18446744073709551615"), Ok(Json::Unsigned(u64::MAX)));
    assert_eq!(Json::parse("-1"), Ok(Json::OtherNumber));
    assert_eq!(Json::parse("2.5"), Ok(Json::OtherNumber));
    assert_eq!(Json::parse("1e3"), Ok(Json::OtherNumber));
    assert_eq!(Json::parse("18446744073709551616"), Ok(Json::OtherNumber));
}

#[test]
fn parse_keeps_members_in_document_order() {
    let doc = Json::parse(r#"{"z":1,"a":2,"m":3}"#).unwrap();
    assert_eq!(
        doc,
        Json::Object(vec![
            ("z".to_string(), Json::Unsigned(1)),
            ("a".to_string(), Json::Unsigned(2)),
            ("m".to_string(), Json::Unsigned(3)),
        ])
    );
}

#[test]
fn parse_unescapes_text() {
    assert_eq!(Json::parse(r#""a\"b\né""#), Ok(text("a\"b\n\u{e9}")));
}

#[test]
fn parse_reads_nested_documents() {
    let doc = Json::parse(r#"[[[{"k":[{"k":"v"}]}]]]"#).unwrap();
    let inner = Json::Object(vec![("k".to_string(), text("v"))]);
    let outer = Json::Object(vec![("k".to_string(), Json::Array(vec![inner]))]);
    assert_eq!(doc, Json::Array(vec![Json::Array(vec![Json::Array(vec![outer])])]));
}

#[test]
fn parse_reports_where_reading_stopped() {
    assert_eq!(Json::parse("[1,"), Err(DeserializationError::Syntax { line: 1, column: 3 }));
    assert_eq!(
        Json::parse("{\n  \"a\": x\n}"),
        Err(DeserializationError::Syntax { line: 2, column: 8 })
    );
}

#[test]
fn get_finds_the_member_of_that_name() {
    let doc = Json::Object(vec![
        ("type".to_string(), text("message")),
        ("inner".to_string(), Json::Object(vec![("type".to_string(), text("error"))])),
    ]);
    assert_eq!(doc.get("type"), Some(&text("message")));
    assert_eq!(doc.get("inner").unwrap().get("type"), Some(&text("error")));
    assert_eq!(doc.get("text"), None);
    assert_eq!(doc.get(""), None);
}

#[test]
fn get_takes_the_last_of_two_members_of_one_name() {
    let doc = Json::Object(vec![
        ("a".to_string(), Json::Unsigned(1)),
        ("b".to_string(), Json::Unsigned(2)),
        ("a".to_string(), Json::Unsigned(3)),
    ]);
    assert_eq!(doc.get("a"), Some(&Json::Unsigned(3)));
    assert_eq!(doc.get("b"), Some(&Json::Unsigned(2)));
}

#[test]
fn get_on_what_is_no_object_finds_nothing() {
    assert_eq!(text("a").get("a"), None);
    assert_eq!(Json::Array(vec![text("a")]).get("a"), None);
    assert_eq!(Json::Null.get("a"), None);
}

#[test]
fn same_text_compares_the_characters() {
    assert!(same_text("image/png", "image/png"));
    assert!(same_text("", ""));
    assert!(!same_text("image/png", "image/pn"));
    assert!(!same_text("Text", "text"));
}

fn every_kind() -> Json {
    Json::Object(vec![
        ("a".to_string(), Json::Null),
        ("b".to_string(), Json::Array(vec![Json::Bool(true), Json::Bool(false)])),
        ("c".to_string(), Json::Unsigned(7)),
        ("d".to_string(), text("x\ty")),
        ("e".to_string(), Json::Object(vec![])),
    ])
}

#[test]
fn to_text_writes_every_kind_of_value() {
    assert_eq!(
        every_kind().to_text(),
        Some(r#"{"a":null,"b":[true,false],"c":7,"d":"x\ty","e":{}}"#.to_string())
    );
    assert_eq!(Json::Null.to_text(), Some("null".to_string()));
    assert_eq!(Json::Bool(false).to_text(), Some("false".to_string()));
    assert_eq!(Json::Unsigned(u64::MAX).to_text(), Some("18446744073709551615".to_string()));
    assert_eq!(text("").to_text(), Some("\"\"".to_string()));
    assert_eq!(Json::Array(vec![]).to_text(), Some("[]".to_string()));
}

#[test]
fn to_text_keeps_members_in_the_order_given() {
    let doc = Json::Object(vec![
        ("z".to_string(), Json::Unsigned(1)),
        ("a".to_string(), Json::Unsigned(2)),
        ("m".to_string(), Json::Unsigned(3)),
    ]);
    assert_eq!(doc.to_text(), Some(r#"{"z":1,"a":2,"m":3}"#.to_string()));
}

#[test]
fn to_text_is_read_back_by_parse() {
    let doc = every_kind();
    assert_eq!(Json::parse(&doc.to_text().unwrap()), Ok(doc));
}

#[test]
fn document_with_a_number_not_kept_is_not_printable() {
    assert!(!Json::OtherNumber.is_printable());
    assert_eq!(Json::OtherNumber.to_text(), None);
    let deep = Json::Array(vec![Json::Object(vec![("n".to_string(), Json::OtherNumber)])]);
    assert!(!deep.is_printable());
    assert_eq!(deep.to_text(), None);
}

#[test]
fn object_that_names_a_member_twice_is_not_printable() {
    let twice = Json::Object(vec![
        ("a".to_string(), Json::Unsigned(1)),
        ("b".to_string(), Json::Unsigned(2)),
        ("a".to_string(), Json::Unsigned(3)),
    ]);
    assert!(!twice.is_printable());
    assert_eq!(twice.to_text(), None);
    let inside = Json::Array(vec![Json::Null, twice]);
    assert!(!inside.is_printable());
}

#[test]
fn other_documents_are_printable() {
    assert!(every_kind().is_printable());
    assert!(Json::Null.is_printable());
    let same_name_apart = Json::Array(vec![
        Json::Object(vec![("a".to_string(), Json::Null)]),
        Json::Object(vec![("a".to_string(), Json::Null)]),
    ]);
    assert!(same_name_apart.is_printable());
}
