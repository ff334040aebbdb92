use kanto_auto_deployer::json::{drop_key, find_member, merge_patch, put_member, Json};
use kanto_auto_deployer::number::{parse_i64, parse_u64};
use kanto_auto_deployer::text::{same_text, text_less};

fn text(value: &str) -> Json {
    Json::Text(value.to_string())
}

fn object(members: &[(&str, Json)]) -> Json {
    Json::Object(members.iter().map(|(k, v)| (k.to_string(), v.duplicate())).collect())
}

fn to_value(json: &Json) -> serde_json::Value {
    match json {
        Json::Null => serde_json::Value::Null,
        Json::Bool(b) => serde_json::Value::Bool(*b),
        Json::Number(n) => serde_json::Value::Number(n.parse().unwrap()),
        Json::Text(t) => serde_json::Value::String(t.clone()),
        Json::Array(items) => serde_json::Value::Array(items.iter().map(to_value).collect()),
        Json::Object(members) => serde_json::Value::Object(
            members.iter().map(|(k, v)| (k.clone(), to_value(v))).collect(),
        ),
    }
}

/// Whether two documents hold the same, whatever the order of their members.
fn same(a: &Json, b: &Json) -> bool {
    to_value(a) == to_value(b)
}

#[test]
fn text_is_parsed_into_a_document() {
    let doc = Json::parse(r#"{"b": [1, -2.5, "x", true, null], "a": {"c": 1e3}}"#).unwrap();
    let b = doc.get("b").unwrap();
    match b {
        Json::Array(items) => {
            assert!(same(&items[0], &Json::Number("1".to_string())));
            assert!(same(&items[1], &Json::Number("-2.5".to_string())));
            assert!(same(&items[2], &text("x")));
            assert!(same(&items[3], &Json::Bool(true)));
            assert!(items[4].is_null());
        }
        other => panic!("unexpected {other:?}"),
    }
    assert!(same(doc.get("a").unwrap().get("c").unwrap(), &Json::Number("1000.0".to_string())));
    assert!(doc.get("c").is_none());
    assert!(Json::parse("{").is_none());
    assert!(Json::parse("").is_none());
    assert!(Json::parse_slice(b"[]").is_some());
    assert!(Json::parse_slice(b"\xc3\x28").is_none());
    assert!(same(&Json::parse_slice(b"\"\xc3\xa4\"").unwrap(), &text("ä")));
}

#[test]
fn first_member_with_a_key_counts() {
    let members = vec![
        ("a".to_string(), text("1")),
        ("b".to_string(), text("2")),
        ("a".to_string(), text("3")),
    ];
    assert_eq!(find_member(&members, "a"), 0);
    assert_eq!(find_member(&members, "b"), 1);
    assert_eq!(find_member(&members, "c"), 3);
    let doc = Json::Object(members);
    assert!(same(doc.get("a").unwrap(), &text("1")));
    assert!(text("x").get("a").is_none());
}

#[test]
fn members_are_set_and_removed() {
    let members = vec![("a".to_string(), text("1")), ("b".to_string(), text("2"))];
    let members = put_member(members, "a".to_string(), text("9"));
    assert!(same(&Json::Object(members.clone_members()), &object(&[("a", text("9")), ("b", text("2"))])));
    let members = put_member(members, "c".to_string(), Json::Null);
    assert_eq!(members.len(), 3);
    let members = drop_key(&members, "b");
    assert!(same(&Json::Object(members), &object(&[("a", text("9")), ("c", Json::Null)])));
}

trait CloneMembers {
    fn clone_members(&self) -> Vec<(String, Json)>;
}

impl CloneMembers for Vec<(String, Json)> {
    fn clone_members(&self) -> Vec<(String, Json)> {
        self.iter().map(|(k, v)| (k.clone(), v.duplicate())).collect()
    }
}

#[test]
fn merge_follows_the_examples_of_the_rfc() {
    let cases = [
        (r#"{"a":"b"}"#, r#"{"a":"c"}"#, r#"{"a":"c"}"#),
        (r#"{"a":"b"}"#, r#"{"b":"c"}"#, r#"{"a":"b","b":"c"}"#),
        (r#"{"a":"b"}"#, r#"{"a":null}"#, r#"{}"#),
        (r#"{"a":"b","b":"c"}"#, r#"{"a":null}"#, r#"{"b":"c"}"#),
        (r#"{"a":["b"]}"#, r#"{"a":"c"}"#, r#"{"a":"c"}"#),
        (r#"{"a":"c"}"#, r#"{"a":["b"]}"#, r#"{"a":["b"]}"#),
        (r#"{"a":{"b":"c"}}"#, r#"{"a":{"b":"d","c":null}}"#, r#"{"a":{"b":"d"}}"#),
        (r#"{"a":[{"b":"c"}]}"#, r#"{"a":[1]}"#, r#"{"a":[1]}"#),
        (r#"["a","b"]"#, r#"["c","d"]"#, r#"["c","d"]"#),
        (r#"{"a":"b"}"#, r#"["c"]"#, r#"["c"]"#),
        (r#"{"a":"foo"}"#, r#"null"#, r#"null"#),
        (r#"{"a":"foo"}"#, r#""bar""#, r#""bar""#),
        (r#"{"e":null}"#, r#"{"a":1}"#, r#"{"e":null,"a":1}"#),
        (r#"[1,2]"#, r#"{"a":"b","c":null}"#, r#"{"a":"b"}"#),
        (r#"{}"#, r#"{"a":{"bb":{"ccc":null}}}"#, r#"{"a":{"bb":{}}}"#),
    ];
    for (doc, patch, expected) in cases {
        let merged = merge_patch(&Json::parse(doc).unwrap(), &Json::parse(patch).unwrap());
        assert!(
            same(&merged, &Json::parse(expected).unwrap()),
            "{doc} merged with {patch} gave {merged:?}"
        );
    }
}

#[test]
fn shadowed_change_is_passed_over() {
    let doc = object(&[("a", text("0"))]);
    let patch = Json::Object(vec![
        ("a".to_string(), text("1")),
        ("a".to_string(), Json::Null),
    ]);
    assert!(same(&merge_patch(&doc, &patch), &object(&[("a", text("1"))])));
}

#[test]
fn duplicate_is_a_copy() {
    let doc = Json::parse(r#"{"a": [1, {"b": null}], "c": "d"}"#).unwrap();
    assert!(same(&doc.duplicate(), &doc));
}

#[test]
fn integers_are_read_from_decimal_text() {
    assert_eq!(parse_i64("0"), Some(0));
    assert_eq!(parse_i64("42"), Some(42));
    assert_eq!(parse_i64("-42"), Some(-42));
    assert_eq!(parse_i64("007"), Some(7));
    assert_eq!(parse_i64("9223372036854775807"), Some(i64::MAX));
    assert_eq!(parse_i64("9223372036854775808"), None);
    assert_eq!(parse_i64("-9223372036854775808"), Some(i64::MIN));
    assert_eq!(parse_i64("-9223372036854775809"), None);
    assert_eq!(parse_i64("18446744073709551616"), None);
    assert_eq!(parse_i64("99999999999999999999999999"), None);
    assert_eq!(parse_i64(""), None);
    assert_eq!(parse_i64("-"), None);
    assert_eq!(parse_i64("1.0"), None);
    assert_eq!(parse_i64("1e3"), None);
    assert_eq!(parse_i64("+1"), None);
    assert_eq!(parse_i64("١"), None);
    assert_eq!(parse_u64("18446744073709551615"), Some(u64::MAX));
    assert_eq!(parse_u64("18446744073709551616"), None);
    assert_eq!(parse_u64("-1"), None);
    assert_eq!(parse_u64("-0"), Some(0));
    assert_eq!(parse_u64("12"), Some(12));
    assert_eq!(parse_u64(""), None);
}

#[test]
fn texts_are_compared_like_str() {
    let samples = ["", "a", "ab", "b", "B", "ä", "z", "中", "a\u{0}", "10", "9"];
    for a in samples {
        for b in samples {
            assert_eq!(text_less(a, b), a < b, "{a:?} < {b:?}");
            assert_eq!(same_text(a, b), a == b);
        }
    }
}
