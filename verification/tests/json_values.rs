use google_generative_ai_rs::v1::json::{
    find_member, member_array, member_object, member_text, one_member, two_members, Json,
};
use google_generative_ai_rs::v1::text::{has_char, text_eq};

fn text(s: &str) -> Json {
    Json::Text(s.to_string())
}

fn number(n: i64) -> Json {
    Json::Number(serde_json::Number::from(n))
}

#[test]
fn parse_reads_every_kind_of_value() {
    let parsed = Json::parse(b"{\"a\":[null,true,false,1,\"s\",{\"b\":{}}]}").unwrap();
    assert_eq!(
        parsed,
        Json::Object(vec![(
            "a".to_string(),
            Json::Array(vec![
                Json::Null,
                Json::Bool(true),
                Json::Bool(false),
                number(1),
                text("s"),
                Json::Object(vec![("b".to_string(), Json::Object(vec![]))]),
            ])
        )])
    );
}

#[test]
fn parse_keeps_numbers() {
    let parsed = Json::parse(b"[0, -7, 18446744073709551615, 1.5, 1e3]").unwrap();
    let items = parsed.as_array().unwrap();
    assert_eq!(items[0], number(0));
    assert_eq!(items[1], number(-7));
    assert_eq!(items[2], Json::Number(serde_json::Number::from(u64::MAX)));
    assert_eq!(items[3], Json::Number(serde_json::Number::from_f64(1.5).unwrap()));
    assert_eq!(items[4], Json::Number(serde_json::Number::from_f64(1000.0).unwrap()));
}

#[test]
fn parse_rejects_what_is_no_document() {
    assert_eq!(Json::parse(b""), None);
    assert_eq!(Json::parse(b"{"), None);
    assert_eq!(Json::parse(b"{\"a\":1,}"), None);
    assert_eq!(Json::parse(b"{} {}"), None);
    assert_eq!(Json::parse(b"nul"), None);
    assert_eq!(Json::parse(&[0xff, 0xfe]), None);
}

#[test]
fn parse_allows_surrounding_whitespace() {
    assert_eq!(Json::parse(b" \n\t{ } \r\n"), Some(Json::Object(vec![])));
}

#[test]
fn parse_handles_escapes_and_unicode() {
    let parsed = Json::parse("\"a\\n\\u00e9\u{1F600}\"".as_bytes()).unwrap();
    assert_eq!(parsed, text("a\n\u{e9}\u{1F600}"));
}

#[test]
fn parsed_object_holds_each_key_once() {
    let parsed = Json::parse(b"{\"k\":1,\"k\":2,\"j\":3}").unwrap();
    let members = parsed.as_object().unwrap();
    assert_eq!(members.len(), 2);
    assert_eq!(find_member(members, "k"), Some(&number(2)));
    assert_eq!(find_member(members, "j"), Some(&number(3)));
}

#[test]
fn to_text_writes_compact_json() {
    let value = Json::Object(vec![
        ("b".to_string(), Json::Array(vec![Json::Null, Json::Bool(true), number(-2)])),
        ("a".to_string(), text("x\"y")),
    ]);
    let written = value.to_text().unwrap();
    assert!(written == "{\"a\":\"x\\\"y\",\"b\":[null,true,-2]}"
        || written == "{\"b\":[null,true,-2],\"a\":\"x\\\"y\"}");
    assert_eq!(Json::Null.to_text().unwrap(), "null");
    assert_eq!(text("é").to_text().unwrap(), "\"é\"");
    assert_eq!(Json::Array(vec![]).to_text().unwrap(), "[]");
}

#[test]
fn to_text_lets_the_later_member_count() {
    let value = Json::Object(vec![("k".to_string(), number(1)), ("k".to_string(), number(2))]);
    assert_eq!(value.to_text().unwrap(), "{\"k\":2}");
}

#[test]
fn text_and_back() {
    let value = Json::Object(vec![
        ("list".to_string(), Json::Array(vec![number(1), text("two"), Json::Object(vec![])])),
        ("n".to_string(), Json::Null),
    ]);
    let back = Json::parse(value.to_text().unwrap().as_bytes()).unwrap();
    assert_eq!(find_member(back.as_object().unwrap(), "list"), find_member(value.as_object().unwrap(), "list"));
    assert_eq!(find_member(back.as_object().unwrap(), "n"), Some(&Json::Null));
}

#[test]
fn duplicate_copies_deeply() {
    let value = Json::Object(vec![(
        "a".to_string(),
        Json::Array(vec![text("x"), Json::Object(vec![("b".to_string(), number(5))])]),
    )]);
    assert_eq!(value.duplicate(), value);
    assert_eq!(value.clone(), value);
}

#[test]
fn lookup_takes_the_last_member_of_a_key() {
    let members = vec![
        ("a".to_string(), number(1)),
        ("b".to_string(), number(2)),
        ("a".to_string(), number(3)),
    ];
    assert_eq!(find_member(&members, "a"), Some(&number(3)));
    assert_eq!(find_member(&members, "b"), Some(&number(2)));
    assert_eq!(find_member(&members, "c"), None);
    assert_eq!(find_member(&members, ""), None);
}

#[test]
fn typed_lookups() {
    let members = vec![
        ("t".to_string(), text("x")),
        ("o".to_string(), Json::Object(vec![("i".to_string(), Json::Null)])),
        ("l".to_string(), Json::Array(vec![Json::Bool(false)])),
    ];
    assert_eq!(member_text(&members, "t"), Some("x".to_string()));
    assert_eq!(member_text(&members, "o"), None);
    assert_eq!(member_text(&members, "missing"), None);
    assert_eq!(member_object(&members, "o"), Some(&vec![("i".to_string(), Json::Null)]));
    assert_eq!(member_object(&members, "t"), None);
    assert_eq!(member_array(&members, "l"), Some(&vec![Json::Bool(false)]));
    assert_eq!(member_array(&members, "o"), None);
}

#[test]
fn accessors() {
    assert_eq!(text("x").as_text(), Some(&"x".to_string()));
    assert_eq!(Json::Null.as_text(), None);
    assert_eq!(Json::Array(vec![]).as_array(), Some(&vec![]));
    assert_eq!(Json::Object(vec![]).as_array(), None);
    assert_eq!(Json::Object(vec![]).as_object(), Some(&vec![]));
    assert!(Json::Null.is_null());
    assert!(!Json::Bool(false).is_null());
}

#[test]
fn integers_in_range() {
    assert_eq!(number(5).as_i32(), Some(5));
    assert_eq!(number(-2147483648).as_i32(), Some(i32::MIN));
    assert_eq!(number(2147483647).as_i32(), Some(i32::MAX));
    assert_eq!(number(2147483648).as_i32(), None);
    assert_eq!(number(-2147483649).as_i32(), None);
    assert_eq!(Json::Number(serde_json::Number::from(u64::MAX)).as_i32(), None);
    assert_eq!(Json::Number(serde_json::Number::from_f64(1.0).unwrap()).as_i32(), None);
    assert_eq!(text("5").as_i32(), None);
    assert_eq!(number(0).as_u32(), Some(0));
    assert_eq!(number(4294967295).as_u32(), Some(u32::MAX));
    assert_eq!(number(4294967296).as_u32(), None);
    assert_eq!(number(-1).as_u32(), None);
    assert_eq!(Json::Number(serde_json::Number::from_f64(2.5).unwrap()).as_u32(), None);
}

#[test]
fn small_objects() {
    assert_eq!(one_member("k", Json::Null), vec![("k".to_string(), Json::Null)]);
    assert_eq!(
        two_members("a", number(1), "b", number(2)),
        vec![("a".to_string(), number(1)), ("b".to_string(), number(2))]
    );
}

#[test]
fn text_helpers() {
    assert!(text_eq("", ""));
    assert!(text_eq("inlineData", "inlineData"));
    assert!(!text_eq("inlineData", "inlinedata"));
    assert!(!text_eq("a", "ab"));
    assert!(!text_eq("é", "e"));
    assert!(has_char("models/x", '/'));
    assert!(!has_char("gemini-pro", '/'));
    assert!(!has_char("", '/'));
    assert!(has_char("é/", '/'));
    assert!(has_char("añb", 'ñ'));
}
