use terrabad::json::Json;

fn text(s: &str) -> Json {
    Json::Text(s.to_string())
}

#[test]
fn parse_reads_scalars() {
    assert_eq!(Json::parse("null"), Some(Json::Null));
    assert_eq!(Json::parse("true"), Some(Json::Bool(true)));
    assert_eq!(Json::parse("false"), Some(Json::Bool(false)));
    assert_eq!(Json::parse("\"UPID:pve\""), Some(text("UPID:pve")));
    assert_eq!(Json::parse("12"), Some(Json::Number("12".to_string())));
    assert_eq!(Json::parse("-3"), Some(Json::Number("-3".to_string())));
}

#[test]
fn parse_reads_nested_documents() {
    let doc = Json::parse("{\"data\":{\"exitstatus\":\"OK\",\"pid\":7},\"list\":[null,\"a\"]}");
    let expected = Json::Object(vec![
        (
            "data".to_string(),
            Json::Object(vec![
                ("exitstatus".to_string(), text("OK")),
                ("pid".to_string(), Json::Number("7".to_string())),
            ]),
        ),
        ("list".to_string(), Json::Array(vec![Json::Null, text("a")])),
    ]);
    assert_eq!(doc, Some(expected));
}

#[test]
fn parse_refuses_what_is_not_json() {
    assert_eq!(Json::parse(""), None);
    assert_eq!(Json::parse("{"), None);
    assert_eq!(Json::parse("{\"data\":}"), None);
    assert_eq!(Json::parse("not json"), None);
    assert_eq!(Json::parse("{\"a\":1} trailing"), None);
}

#[test]
fn parse_keeps_the_last_of_repeated_keys() {
    let doc = Json::parse("{\"data\":\"first\",\"data\":\"second\"}").unwrap();
    assert_eq!(doc.get("data"), Some(&text("second")));
}

#[test]
fn get_finds_members_of_objects_only() {
    let doc = Json::Object(vec![
        ("a".to_string(), Json::Null),
        ("b".to_string(), text("x")),
    ]);
    assert_eq!(doc.get("a"), Some(&Json::Null));
    assert_eq!(doc.get("b"), Some(&text("x")));
    assert_eq!(doc.get("c"), None);
    assert_eq!(doc.get(""), None);
    assert_eq!(text("a").get("a"), None);
    assert_eq!(Json::Array(vec![text("a")]).get("a"), None);
    assert_eq!(Json::Null.get("a"), None);
}

#[test]
fn get_takes_the_first_of_equal_keys() {
    let doc = Json::Object(vec![
        ("k".to_string(), text("one")),
        ("k".to_string(), text("two")),
    ]);
    assert_eq!(doc.get("k"), Some(&text("one")));
}

#[test]
fn text_accessors_tell_strings_from_the_rest() {
    assert_eq!(text("abc").as_text(), Some(&"abc".to_string()));
    assert_eq!(Json::Null.as_text(), None);
    assert_eq!(Json::Number("1".to_string()).as_text(), None);
    let doc = Json::Object(vec![
        ("s".to_string(), text("v")),
        ("n".to_string(), Json::Null),
    ]);
    assert_eq!(doc.text_at("s"), Some(&"v".to_string()));
    assert_eq!(doc.text_at("n"), None);
    assert_eq!(doc.text_at("missing"), None);
    assert!(Json::Null.is_null());
    assert!(!text("").is_null());
    assert!(doc.is_object());
    assert!(!Json::Array(vec![]).is_object());
}
