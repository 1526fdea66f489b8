use linehaul::json::{push_optional_text, push_pair, push_text, Json};
use linehaul::ua::details::decode_user_agent;
use linehaul::ua::{Installer, UserAgent};

fn object(entries: Vec<(&str, Json)>) -> Json {
    Json::Object(entries.into_iter().map(|(k, v)| (k.to_string(), v)).collect())
}

fn string(s: &str) -> Json {
    Json::Text(s.to_string())
}

#[test]
fn member_finds_the_first_of_a_name() {
    let doc = object(vec![("a", Json::Null), ("b", Json::Bool(true)), ("a", Json::Bool(false))]);
    assert_eq!(doc.member("a"), Some(&Json::Null));
    assert_eq!(doc.member("b"), Some(&Json::Bool(true)));
    assert_eq!(doc.member("c"), None);
    assert_eq!(doc.member(""), None);
    assert_eq!(Json::Null.member("a"), None);
    assert_eq!(Json::Array(vec![Json::Null]).member("a"), None);
}

#[test]
fn field_goes_by_name_or_by_position() {
    let doc = object(vec![("name", string("pip"))]);
    assert_eq!(doc.field("name", 0, 2), Some(&string("pip")));
    assert_eq!(doc.field("version", 1, 2), None);
    let doc = Json::Array(vec![string("pip"), Json::Null]);
    assert_eq!(doc.field("name", 0, 2), Some(&string("pip")));
    assert_eq!(doc.field("version", 1, 2), Some(&Json::Null));
    assert_eq!(doc.field("version", 2, 2), None);
    assert_eq!(doc.field("name", 0, 3), None);
    assert_eq!(string("x").field("name", 0, 2), None);
}

#[test]
fn records_are_objects_and_arrays_of_the_width() {
    assert!(object(vec![]).is_record(2));
    assert!(Json::Array(vec![Json::Null, Json::Null]).is_record(2));
    assert!(!Json::Array(vec![Json::Null]).is_record(2));
    assert!(!Json::Array(vec![Json::Null, Json::Null, Json::Null]).is_record(2));
    assert!(!Json::Null.is_record(2));
    assert!(!Json::Number(Some(2)).is_record(2));
    assert!(!string("ab").is_record(2));
}

#[test]
fn decoding_a_user_agent() {
    let doc = object(vec![
        ("installer", object(vec![("name", string("pip")), ("version", Json::Null)])),
        ("python", string("3.8")),
        ("extra", Json::Array(vec![])),
    ]);
    assert_eq!(
        decode_user_agent(&doc),
        Some(UserAgent {
            installer: Some(Installer { name: Some("pip".to_string()), version: None }),
            python: Some("3.8".to_string()),
            ..Default::default()
        })
    );
    assert_eq!(decode_user_agent(&object(vec![])), Some(UserAgent::default()));
    assert_eq!(decode_user_agent(&Json::Null), None);
    assert_eq!(decode_user_agent(&object(vec![("python", Json::Number(Some(3)))])), None);
    assert_eq!(decode_user_agent(&object(vec![("python", Json::Bool(true))])), None);
    assert_eq!(decode_user_agent(&object(vec![("system", string("Linux"))])), None);
    assert_eq!(decode_user_agent(&Json::Array((0..7).map(|_| Json::Null).collect())), None);
    assert_eq!(decode_user_agent(&Json::Array((0..8).map(|_| Json::Null).collect())), Some(UserAgent::default()));
}

#[test]
fn writing_texts() {
    let mut out = String::from("x");
    push_text(&mut out, "a\"b\n");
    assert_eq!(out, "x\"a\\\"b\\n\"");
    let mut out = String::new();
    push_optional_text(&mut out, &None);
    push_optional_text(&mut out, &Some("é".to_string()));
    assert_eq!(out, "null\"é\"");
    let mut out = String::from("[");
    push_pair(&mut out, "\"a\":", &Some("1".to_string()), "\"b\":", &None);
    assert_eq!(out, "[{\"a\":\"1\",\"b\":null}");
    let mut out = String::new();
    push_text(&mut out, "");
    push_text(&mut out, "\u{0}\u{1f}\t\r\u{8}\u{c}/\\\u{7f}\u{2028}😀");
    assert_eq!(out, "\"\"\"\\u0000\\u001f\\t\\r\\b\\f/\\\\\u{7f}\u{2028}😀\"");
}
