use ocpp_backend::json::{find_member, json_eq, Json};

fn text_of(s: &str) -> Json {
    Json::Str(s.to_string())
}

fn number_of(s: &str) -> Json {
    Json::Number(s.to_string())
}

#[test]
fn parse_reads_each_kind_of_value() {
    assert_eq!(Json::parse("null"), Some(Json::Null));
    assert_eq!(Json::parse("true"), Some(Json::Bool(true)));
    assert_eq!(Json::parse("false"), Some(Json::Bool(false)));
    assert_eq!(Json::parse("42"), Some(number_of("42")));
    assert_eq!(Json::parse("-7"), Some(number_of("-7")));
    assert_eq!(Json::parse("\"a string\""), Some(text_of("a string")));
    assert_eq!(Json::parse("[]"), Some(Json::Array(vec![])));
    assert_eq!(Json::parse("{}"), Some(Json::Object(vec![])));
}

#[test]
fn parse_reads_nested_documents() {
    let parsed = Json::parse(" [2, \"1\", {\"a\": [true, null], \"b\": {\"c\": \"d\"}}] ");
    let expected = Json::Array(vec![
        number_of("2"),
        text_of("1"),
        Json::Object(vec![
            ("a".to_string(), Json::Array(vec![Json::Bool(true), Json::Null])),
            ("b".to_string(), Json::Object(vec![("c".to_string(), text_of("d"))])),
        ]),
    ]);
    assert_eq!(parsed, Some(expected));
}

#[test]
fn parse_writes_numbers_as_the_printer_does() {
    assert_eq!(Json::parse("1.5"), Some(number_of("1.5")));
    assert_eq!(Json::parse("2.0"), Some(number_of("2.0")));
    assert_eq!(Json::parse("-0.25"), Some(number_of("-0.25")));
    assert_eq!(Json::parse(" 300 "), Some(number_of("300")));
    assert_eq!(Json::parse("18446744073709551615"), Some(number_of("18446744073709551615")));
}

#[test]
fn parse_lists_members_in_key_order() {
    let parsed = Json::parse("{\"b\": 1, \"a\": 2}").unwrap();
    let expected = Json::Object(vec![
        ("a".to_string(), number_of("2")),
        ("b".to_string(), number_of("1")),
    ]);
    assert!(json_eq(&parsed, &expected));
}

#[test]
fn parse_unescapes_strings() {
    assert_eq!(Json::parse("\"a\\n\\\"b\\\" \\u00e9\""), Some(text_of("a\n\"b\" é")));
}

#[test]
fn parse_rejects_what_is_not_json() {
    assert_eq!(Json::parse(""), None);
    assert_eq!(Json::parse("[2,"), None);
    assert_eq!(Json::parse("{a: 1}"), None);
    assert_eq!(Json::parse("[1] [2]"), None);
    assert_eq!(Json::parse("02"), None);
    assert_eq!(Json::parse("hello"), None);
}

#[test]
fn to_text_writes_each_kind_of_value() {
    assert_eq!(Json::Null.to_text(), "null");
    assert_eq!(Json::Bool(true).to_text(), "true");
    assert_eq!(number_of("60").to_text(), "60");
    assert_eq!(number_of("-3").to_text(), "-3");
    assert_eq!(number_of("0.5").to_text(), "0.5");
    assert_eq!(text_of("a \"b\"\n").to_text(), "\"a \\\"b\\\"\\n\"");
    assert_eq!(Json::Array(vec![]).to_text(), "[]");
    assert_eq!(Json::Object(vec![]).to_text(), "{}");
}

#[test]
fn to_text_writes_nested_documents() {
    let value = Json::Array(vec![
        number_of("3"),
        text_of("42"),
        Json::Object(vec![("currentTime".to_string(), text_of("2024-01-01T00:00:00.000Z"))]),
    ]);
    assert_eq!(value.to_text(), "[3,\"42\",{\"currentTime\":\"2024-01-01T00:00:00.000Z\"}]");
}

#[test]
fn to_text_writes_null_for_a_number_that_is_none() {
    assert_eq!(number_of("abc").to_text(), "null");
    assert_eq!(number_of("").to_text(), "null");
}

#[test]
fn to_text_then_parse_gives_the_document_back() {
    let value = Json::Object(vec![
        ("a".to_string(), Json::Array(vec![number_of("1"), number_of("-2"), number_of("0.25")])),
        ("b".to_string(), Json::Object(vec![("c".to_string(), Json::Null)])),
        ("d".to_string(), text_of("é\t")),
        ("e".to_string(), Json::Bool(false)),
    ]);
    assert_eq!(Json::parse(&value.to_text()), Some(value));
}

#[test]
fn clone_gives_an_equal_document() {
    let value = Json::Array(vec![
        Json::Object(vec![("k".to_string(), Json::Array(vec![Json::Null, text_of("x")]))]),
        number_of("5"),
    ]);
    let copy = value.clone();
    assert!(json_eq(&value, &copy));
    assert_eq!(value, copy);
}

#[test]
fn json_eq_tells_documents_apart() {
    assert!(json_eq(&Json::Null, &Json::Null));
    assert!(!json_eq(&Json::Null, &Json::Bool(false)));
    assert!(!json_eq(&number_of("1"), &text_of("1")));
    assert!(!json_eq(&number_of("1"), &number_of("2")));
    assert!(!json_eq(&Json::Array(vec![number_of("1")]), &Json::Array(vec![])));
    assert!(!json_eq(
        &Json::Array(vec![number_of("1"), number_of("2")]),
        &Json::Array(vec![number_of("2"), number_of("1")])
    ));
    assert!(!json_eq(
        &Json::Object(vec![("a".to_string(), Json::Null)]),
        &Json::Object(vec![("b".to_string(), Json::Null)])
    ));
    assert!(!json_eq(
        &Json::Object(vec![("a".to_string(), Json::Null)]),
        &Json::Object(vec![("a".to_string(), Json::Bool(true))])
    ));
    assert!(json_eq(
        &Json::Object(vec![("a".to_string(), Json::Array(vec![Json::Bool(true)]))]),
        &Json::Object(vec![("a".to_string(), Json::Array(vec![Json::Bool(true)]))])
    ));
}

#[test]
fn find_member_finds_the_first_of_a_key() {
    let members = vec![
        ("a".to_string(), number_of("1")),
        ("b".to_string(), number_of("2")),
        ("a".to_string(), number_of("3")),
    ];
    assert_eq!(find_member(&members, "a"), Some(0));
    assert_eq!(find_member(&members, "b"), Some(1));
    assert_eq!(find_member(&members, "c"), None);
    assert_eq!(find_member(&members, "A"), None);
    assert_eq!(find_member(&vec![], "a"), None);
}

#[test]
fn a_document_is_valid_where_json_can_write_it() {
    assert!(Json::Null.is_valid());
    assert!(Json::Bool(true).is_valid());
    assert!(text_of("").is_valid());
    assert!(number_of("60").is_valid());
    assert!(number_of("-0.5e3").is_valid());
    assert!(Json::Array(vec![]).is_valid());
    assert!(Json::Object(vec![]).is_valid());
    assert!(Json::Object(vec![
        ("a".to_string(), Json::Array(vec![number_of("1"), Json::Object(vec![])])),
        ("b".to_string(), Json::Object(vec![("a".to_string(), Json::Null)])),
    ])
    .is_valid());
}

#[test]
fn a_document_with_a_number_that_is_none_is_not_valid() {
    assert!(!number_of("abc").is_valid());
    assert!(!number_of("").is_valid());
    assert!(!number_of("01").is_valid());
    assert!(!Json::Array(vec![number_of("1"), number_of("1.")]).is_valid());
    assert!(!Json::Object(vec![("a".to_string(), Json::Array(vec![number_of("+1")]))]).is_valid());
}

#[test]
fn a_document_with_two_members_of_one_key_is_not_valid() {
    let twice = Json::Object(vec![
        ("a".to_string(), Json::Null),
        ("b".to_string(), Json::Null),
        ("a".to_string(), Json::Bool(true)),
    ]);
    assert!(!twice.is_valid());
    assert!(!Json::Array(vec![Json::Null, twice.clone()]).is_valid());
    assert!(!Json::Object(vec![("x".to_string(), twice)]).is_valid());
    assert!(Json::Object(vec![
        ("a".to_string(), Json::Object(vec![("a".to_string(), Json::Null)])),
        ("A".to_string(), Json::Null),
    ])
    .is_valid());
}

#[test]
fn what_the_parser_reads_is_valid() {
    for text in ["[2,\"1\",{\"b\":1.5e3,\"a\":[-0,{}]}]", "{\"a\":1,\"a\":2}", "12", "null"] {
        assert!(Json::parse(text).unwrap().is_valid(), "{}", text);
    }
}

#[test]
fn a_valid_document_is_read_back_as_it_was_written() {
    let value = Json::Object(vec![
        ("a".to_string(), number_of("-1.5")),
        ("b".to_string(), Json::Array(vec![number_of("0"), text_of("x")])),
    ]);
    assert!(value.is_valid());
    assert_eq!(Json::parse(&value.to_text()), Some(value));
}

#[test]
fn objects_are_compared_as_maps() {
    let one = Json::Object(vec![
        ("a".to_string(), number_of("1")),
        ("b".to_string(), Json::Array(vec![Json::Null, Json::Bool(true)])),
    ]);
    let other = Json::Object(vec![
        ("b".to_string(), Json::Array(vec![Json::Null, Json::Bool(true)])),
        ("a".to_string(), number_of("1")),
    ]);
    assert!(one.same_as(&other));
    assert!(other.same_as(&one));
    assert_eq!(one, other);
    assert!(!json_eq(&one, &other));
    assert!(one.same_as(&one));
    let nested_one = Json::Array(vec![one.clone(), text_of("x")]);
    let nested_other = Json::Array(vec![other.clone(), text_of("x")]);
    assert_eq!(nested_one, nested_other);
    assert_eq!(Json::parse("{\"b\":[null,true],\"a\":1}"), Some(other));
}

#[test]
fn documents_that_differ_are_not_the_same() {
    let one = Json::Object(vec![("a".to_string(), number_of("1")), ("b".to_string(), Json::Null)]);
    assert_ne!(one, Json::Object(vec![("a".to_string(), number_of("1"))]));
    assert_ne!(
        one,
        Json::Object(vec![("a".to_string(), number_of("2")), ("b".to_string(), Json::Null)])
    );
    assert_ne!(
        one,
        Json::Object(vec![("a".to_string(), number_of("1")), ("c".to_string(), Json::Null)])
    );
    assert_ne!(one, Json::Array(vec![number_of("1"), Json::Null]));
    assert_ne!(
        Json::Array(vec![number_of("1"), number_of("2")]),
        Json::Array(vec![number_of("2"), number_of("1")])
    );
    assert_ne!(number_of("1"), number_of("1.0"));
    assert_ne!(number_of("1"), text_of("1"));
    assert_ne!(Json::Null, Json::Bool(false));
    assert_eq!(Json::Null, Json::Null);
    assert_eq!(text_of("a"), text_of("a"));
}
