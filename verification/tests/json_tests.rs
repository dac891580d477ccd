use pbr::decode::parse_json;
use pbr::json::JsonValue;
use pbr::schema::{Kind, Schema};
use pbr::text::{decimal_text, file_name_of, same_text, truth_text};

fn text(s: &str) -> JsonValue {
    JsonValue::String(s.to_string())
}

fn number(s: &str) -> JsonValue {
    JsonValue::Number(s.to_string())
}

fn object(members: Vec<(&str, JsonValue)>) -> JsonValue {
    JsonValue::Object(members.into_iter().map(|(k, v)| (k.to_string(), v)).collect())
}

#[test]
fn decimal_text_writes_small_numbers() {
    assert_eq!(decimal_text(0), "0");
    assert_eq!(decimal_text(7), "7");
    assert_eq!(decimal_text(10), "10");
    assert_eq!(decimal_text(500), "500");
    assert_eq!(decimal_text(1009), "1009");
}

#[test]
fn decimal_text_writes_negative_numbers() {
    assert_eq!(decimal_text(-1), "-1");
    assert_eq!(decimal_text(-120), "-120");
}

#[test]
fn decimal_text_writes_the_limits_of_i32() {
    assert_eq!(decimal_text(i32::MAX), "2147483647");
    assert_eq!(decimal_text(i32::MIN), "-2147483648");
}

#[test]
fn decimal_text_agrees_with_to_string() {
    let mut n: i32 = -5000;
    while n <= 5000 {
        assert_eq!(decimal_text(n), n.to_string());
        n += 37;
    }
}

#[test]
fn truth_text_writes_both_values() {
    assert_eq!(truth_text(true), "true");
    assert_eq!(truth_text(false), "false");
}

#[test]
fn same_text_compares_contents() {
    assert!(same_text(&"file".to_string(), "file"));
    assert!(!same_text(&"file".to_string(), "files"));
    assert!(!same_text(&"".to_string(), "file"));
}

#[test]
fn file_name_is_the_last_component() {
    assert_eq!(file_name_of("a/b/c.txt"), Some("c.txt".to_string()));
    assert_eq!(file_name_of("c.txt"), Some("c.txt".to_string()));
    assert_eq!(file_name_of("/tmp/x.png"), Some("x.png".to_string()));
    assert_eq!(file_name_of("./x.png"), Some("x.png".to_string()));
    assert_eq!(file_name_of("a/..b"), Some("..b".to_string()));
    assert_eq!(file_name_of("a.b/.c"), Some(".c".to_string()));
}

#[test]
fn file_name_ignores_what_trails() {
    assert_eq!(file_name_of("dir/"), Some("dir".to_string()));
    assert_eq!(file_name_of("dir///"), Some("dir".to_string()));
    assert_eq!(file_name_of("a/."), Some("a".to_string()));
    assert_eq!(file_name_of("a/b/./"), Some("b".to_string()));
    assert_eq!(file_name_of("a."), Some("a.".to_string()));
}

#[test]
fn file_name_is_missing_where_no_component_names_a_file() {
    assert_eq!(file_name_of(""), None);
    assert_eq!(file_name_of("."), None);
    assert_eq!(file_name_of("./"), None);
    assert_eq!(file_name_of("/"), None);
    assert_eq!(file_name_of(".."), None);
    assert_eq!(file_name_of("a/.."), None);
    assert_eq!(file_name_of("a/../"), None);
}

#[test]
fn file_name_agrees_with_the_standard_library() {
    let paths = vec![
        "a/b/c.txt", "c.txt", "/", "", ".", "..", "a/..", "a/.", "dir/", "./x", "x/./", "/a//b//",
        "ünï/cödé.png", "a/...", ".hidden", "a/.hidden/",
    ];
    for path in paths {
        let expected = std::path::Path::new(path)
            .file_name()
            .map(|name| name.to_str().unwrap().to_string());
        assert_eq!(file_name_of(path), expected);
    }
}

#[test]
fn parse_reads_a_flat_object() {
    let parsed = parse_json("{\"muted\":true}").unwrap();
    assert_eq!(parsed, object(vec![("muted", JsonValue::Bool(true))]));
}

#[test]
fn parse_reads_every_kind_of_value() {
    let parsed = parse_json(
        "{\"a\": null, \"b\": [1, -2, 1.5, \"x\"], \"c\": {\"d\": false}, \"e\": \"q\\\"uo\\u00e9\"}",
    ).unwrap();
    assert_eq!(
        parsed,
        object(vec![
            ("a", JsonValue::Null),
            ("b", JsonValue::Array(vec![number("1"), number("-2"), number("1.5"), text("x")])),
            ("c", object(vec![("d", JsonValue::Bool(false))])),
            ("e", text("q\"uoé")),
        ])
    );
}

#[test]
fn parse_reads_values_that_are_no_objects() {
    assert_eq!(parse_json("null").unwrap(), JsonValue::Null);
    assert_eq!(parse_json(" 42 ").unwrap(), number("42"));
    assert_eq!(parse_json("\"s\"").unwrap(), text("s"));
    assert_eq!(parse_json("[]").unwrap(), JsonValue::Array(vec![]));
    assert_eq!(parse_json("18446744073709551615").unwrap(), number("18446744073709551615"));
}

#[test]
fn parse_reports_what_is_no_json() {
    assert!(parse_json("").is_err());
    assert!(parse_json("{").is_err());
    assert!(parse_json("{\"a\":}").is_err());
    assert!(parse_json("{\"a\":1} trailing").is_err());
    assert!(parse_json("{'a':1}").is_err());
    let diagnostic = parse_json("{\"a\":").unwrap_err();
    assert!(!diagnostic.is_empty());
}

#[test]
fn get_finds_the_first_member_with_the_key() {
    let document = object(vec![("a", text("1")), ("b", text("2")), ("a", text("3"))]);
    assert_eq!(document.get("a"), Some(&text("1")));
    assert_eq!(document.get("b"), Some(&text("2")));
    assert_eq!(document.get("c"), None);
    assert_eq!(text("a").get("a"), None);
    assert_eq!(JsonValue::Array(vec![text("a")]).get("a"), None);
}

#[test]
fn get_text_reads_only_strings() {
    let document = object(vec![("a", text("1")), ("b", JsonValue::Bool(true)), ("c", JsonValue::Null)]);
    assert_eq!(document.get_text("a"), Some("1".to_string()));
    assert_eq!(document.get_text("b"), None);
    assert_eq!(document.get_text("c"), None);
    assert_eq!(document.get_text("d"), None);
}

#[test]
fn constructors_build_the_values_they_name() {
    assert_eq!(JsonValue::text("x"), text("x"));
    assert_eq!(JsonValue::number(-15), number("-15"));
    assert_eq!(JsonValue::array(vec![text("x")]), JsonValue::Array(vec![text("x")]));
    assert_eq!(
        JsonValue::object(vec![("k".to_string(), text("v"))]),
        object(vec![("k", text("v"))])
    );
}

#[test]
fn schema_gives_each_key_its_kind() {
    let schema = Schema::new().with("a", Kind::Text).with("b", Kind::Flag).with("a", Kind::Number);
    assert_eq!(schema.kind_for(&"a".to_string()), Some(Kind::Text));
    assert_eq!(schema.kind_for(&"b".to_string()), Some(Kind::Flag));
    assert_eq!(schema.kind_for(&"c".to_string()), None);
}

#[test]
fn schema_accepts_objects_whose_known_members_fit() {
    let schema = Schema::new()
        .with("s", Kind::Text)
        .with("f", Kind::Flag)
        .with("n", Kind::Number)
        .with("o", Kind::Object)
        .with("l", Kind::List);
    assert!(schema.accepts(&object(vec![])));
    assert!(schema.accepts(&object(vec![
        ("s", text("x")),
        ("f", JsonValue::Bool(false)),
        ("n", number("3")),
        ("o", object(vec![])),
        ("l", JsonValue::Array(vec![])),
    ])));
    assert!(schema.accepts(&object(vec![("s", JsonValue::Null), ("f", JsonValue::Null)])));
    assert!(schema.accepts(&object(vec![("unknown", number("1"))])));
}

#[test]
fn schema_rejects_members_of_the_wrong_kind() {
    let schema = Schema::new()
        .with("s", Kind::Text)
        .with("f", Kind::Flag)
        .with("n", Kind::Number)
        .with("o", Kind::Object)
        .with("l", Kind::List);
    assert!(!schema.accepts(&object(vec![("s", JsonValue::Bool(true))])));
    assert!(!schema.accepts(&object(vec![("f", text("yes"))])));
    assert!(!schema.accepts(&object(vec![("n", text("3"))])));
    assert!(!schema.accepts(&object(vec![("o", JsonValue::Array(vec![]))])));
    assert!(!schema.accepts(&object(vec![("l", object(vec![]))])));
    assert!(!schema.accepts(&object(vec![("s", text("x")), ("f", number("1"))])));
}

#[test]
fn schema_rejects_what_is_no_object() {
    let schema = Schema::new().with("s", Kind::Text);
    assert!(!schema.accepts(&JsonValue::Null));
    assert!(!schema.accepts(&text("s")));
    assert!(!schema.accepts(&JsonValue::Array(vec![])));
    assert!(!schema.accepts(&number("1")));
}
