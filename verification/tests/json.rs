use filehost::json::{DocumentError, Json};

fn text(s: &str) -> Json {
    Json::Text(s.to_string())
}

#[test]
fn parse_reads_every_kind_of_value() {
    let doc = Json::parse(br#"{"a": null, "b": true, "c": 17, "d": "x", "e": [1, "y"], "f": {"g": false}}"#)
        .unwrap();
    let expected = Json::Record(vec![
        ("a".to_string(), Json::Null),
        ("b".to_string(), Json::Bool(true)),
        ("c".to_string(), Json::Number(Some(17))),
        ("d".to_string(), text("x")),
        ("e".to_string(), Json::List(vec![Json::Number(Some(1)), text("y")])),
        ("f".to_string(), Json::Record(vec![("g".to_string(), Json::Bool(false))])),
    ]);
    assert_eq!(doc, expected);
}

#[test]
fn parse_keeps_the_order_of_the_members() {
    let doc = Json::parse(br#"{"z": 1, "a": 2, "m": 3}"#).unwrap();
    assert_eq!(
        doc,
        Json::Record(vec![
            ("z".to_string(), Json::Number(Some(1))),
            ("a".to_string(), Json::Number(Some(2))),
            ("m".to_string(), Json::Number(Some(3))),
        ])
    );
}

#[test]
fn parse_holds_only_whole_numbers_that_fit() {
    assert_eq!(Json::parse(b"0").unwrap(), Json::Number(Some(0)));
    assert_eq!(Json::parse(b"18446744073709551615").unwrap(), Json::Number(Some(u64::MAX)));
    assert_eq!(Json::parse(b"-1").unwrap(), Json::Number(None));
    assert_eq!(Json::parse(b"1.5").unwrap(), Json::Number(None));
    assert_eq!(Json::parse(b"1e3").unwrap(), Json::Number(None));
    assert_eq!(Json::parse(b"18446744073709551616").unwrap(), Json::Number(None));
}

#[test]
fn parse_unescapes_strings() {
    let source = "\"a\\\"b\\\\c\\n\u{e9}\\u00e9\"";
    assert_eq!(Json::parse(source.as_bytes()).unwrap(), text("a\"b\\c\n\u{e9}\u{e9}"));
}

#[test]
fn parse_refuses_what_is_no_json() {
    assert!(Json::parse(b"").is_err());
    assert!(Json::parse(b"{").is_err());
    assert!(Json::parse(b"{\"a\": }").is_err());
    assert!(Json::parse(b"{} trailing").is_err());
    assert!(Json::parse(b"[1, 2,]").is_err());
    assert!(Json::parse(&[0xFF, 0xFE]).is_err());
}

#[test]
fn get_finds_the_member_of_a_record() {
    let doc = Json::parse(br#"{"a": 1, "b": "two"}"#).unwrap();
    assert_eq!(doc.get("a"), Some(&Json::Number(Some(1))));
    assert_eq!(doc.get("b"), Some(&text("two")));
    assert_eq!(doc.get("c"), None);
    assert_eq!(doc.get(""), None);
}

#[test]
fn get_finds_the_first_of_two_members_with_one_name() {
    let doc = Json::Record(vec![
        ("a".to_string(), Json::Number(Some(1))),
        ("a".to_string(), Json::Number(Some(2))),
    ]);
    assert_eq!(doc.get("a"), Some(&Json::Number(Some(1))));
}

#[test]
fn get_finds_nothing_in_what_is_no_record() {
    assert_eq!(Json::Null.get("a"), None);
    assert_eq!(text("a").get("a"), None);
    assert_eq!(Json::List(vec![text("a")]).get("a"), None);
}

#[test]
fn text_field_reads_a_string() {
    let doc = Json::parse(br#"{"name": "x", "count": 3}"#).unwrap();
    assert_eq!(doc.text_field("name").unwrap(), "x");
    assert!(matches!(
        doc.text_field("count"),
        Err(DocumentError::InvalidType { field }) if field == "count"
    ));
    assert!(matches!(
        doc.text_field("other"),
        Err(DocumentError::MissingField { field }) if field == "other"
    ));
}

#[test]
fn number_field_reads_a_whole_number() {
    let doc = Json::parse(br#"{"name": "x", "count": 3, "neg": -3, "real": 0.5}"#).unwrap();
    assert_eq!(doc.number_field("count").unwrap(), 3);
    assert!(matches!(
        doc.number_field("name"),
        Err(DocumentError::InvalidType { field }) if field == "name"
    ));
    assert!(matches!(
        doc.number_field("neg"),
        Err(DocumentError::InvalidType { field }) if field == "neg"
    ));
    assert!(matches!(
        doc.number_field("real"),
        Err(DocumentError::InvalidType { field }) if field == "real"
    ));
    assert!(matches!(
        doc.number_field("other"),
        Err(DocumentError::MissingField { field }) if field == "other"
    ));
}

#[test]
fn render_writes_a_record_on_one_line() {
    let members =
        vec![("b".to_string(), "1".to_string()), ("a".to_string(), "two words".to_string())];
    let out = Json::render(&members, false).unwrap();
    assert_eq!(String::from_utf8(out).unwrap(), r#"{"b":"1","a":"two words"}"#);
}

#[test]
fn render_writes_a_record_over_several_lines() {
    let members =
        vec![("b".to_string(), "1".to_string()), ("a".to_string(), "two words".to_string())];
    let out = Json::render(&members, true).unwrap();
    assert_eq!(String::from_utf8(out).unwrap(), "{\n  \"b\": \"1\",\n  \"a\": \"two words\"\n}");
}

#[test]
fn render_writes_the_empty_record() {
    assert_eq!(Json::render(&vec![], false).unwrap(), b"{}".to_vec());
    assert_eq!(Json::render(&vec![], true).unwrap(), b"{}".to_vec());
}

#[test]
fn render_escapes_strings() {
    let members = vec![("k\"".to_string(), "a\\b\n\u{e9}".to_string())];
    let out = Json::render(&members, false).unwrap();
    assert_eq!(String::from_utf8(out.clone()).unwrap(), "{\"k\\\"\":\"a\\\\b\\n\u{e9}\"}");
    let back = Json::parse(&out).unwrap();
    assert_eq!(back, Json::Record(vec![("k\"".to_string(), text("a\\b\n\u{e9}"))]));
}

#[test]
fn what_is_rendered_is_parsed_back() {
    let members = vec![
        ("first".to_string(), "1".to_string()),
        ("second".to_string(), "".to_string()),
        ("third".to_string(), "/a/b c".to_string()),
    ];
    for pretty in [false, true] {
        let out = Json::render(&members, pretty).unwrap();
        let back = Json::parse(&out).unwrap();
        let expected =
            Json::Record(members.iter().map(|m| (m.0.clone(), text(&m.1))).collect());
        assert_eq!(back, expected);
    }
}
