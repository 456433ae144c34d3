//! JSON values and their text form.

use mini_chat_llm::json::Json;

#[test]
fn texts_read_and_render() {
    for text in [
        "null",
        "true",
        "-12",
        "18446744073709551615",
        "1.5",
        "0.1",
        "1e300",
        "-0.0",
        r#""a\"\n\u0007é""#,
        r#"[1,[2,{"a":[]}],{}]"#,
        r#"{"a":{"b":null},"c":[false]}"#,
    ] {
        let expected: serde_json::Value = serde_json::from_str(text).unwrap();
        let json = Json::parse(text).unwrap();
        assert_eq!(json.render(), expected.to_string());
        assert_eq!(json.to_bytes(), serde_json::to_vec(&expected).unwrap());
        assert_eq!(Json::parse_bytes(text.as_bytes()).unwrap().render(), expected.to_string());
        assert_eq!(json.clone().render(), expected.to_string());
    }
    let reason = serde_json::from_str::<serde_json::Value>("[1,").unwrap_err().to_string();
    assert_eq!(Json::parse("[1,").unwrap_err(), reason);
    let reason = serde_json::from_slice::<serde_json::Value>(b"\xff").unwrap_err().to_string();
    assert_eq!(Json::parse_bytes(b"\xff").unwrap_err(), reason);
}

#[test]
fn later_members_win() {
    let mut object = Json::object();
    object.set("a", Json::from_i64(-1));
    object.set("b", Json::from_u64(u64::MAX));
    object.set("a", Json::text("x"));
    assert_eq!(object.render(), r#"{"a":"x","b":18446744073709551615}"#);
    assert_eq!(object.get_str("a"), Some("x"));
    assert_eq!(object.get("b").unwrap().as_int(), Some(i128::from(u64::MAX)));
    assert!(object.get("c").is_none());
    assert_eq!(Json::parse(r#"{"k":1,"k":2}"#).unwrap().render(), r#"{"k":2}"#);
    let twice = Json::Object(vec![("k".to_owned(), Json::Null), ("k".to_owned(), Json::Bool(true))]);
    assert_eq!(twice.render(), r#"{"k":true}"#);
    let mut text = Json::text("t");
    text.set("a", Json::Null);
    assert_eq!(text.as_str(), Some("t"));
}

#[test]
fn integers_are_told_from_floats() {
    assert_eq!(Json::parse("7").unwrap().as_int(), Some(7));
    assert_eq!(Json::parse("-7").unwrap().as_int(), Some(-7));
    assert_eq!(Json::parse("7.0").unwrap().as_int(), None);
    assert_eq!(Json::parse("\"7\"").unwrap().as_int(), None);
    assert_eq!(Json::parse("[7]").unwrap().as_array().unwrap().len(), 1);
    assert!(Json::parse("7").unwrap().as_array().is_none());
}
