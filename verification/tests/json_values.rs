use grok_core::json::Json;

#[test]
fn text_of_a_document_is_what_serde_json_writes() {
    let doc = Json::Object(vec![
        ("b".to_string(), Json::Array(vec![Json::Int(-3), Json::UInt(18446744073709551615), Json::Null])),
        ("a".to_string(), Json::Str("x\"y\n".to_string())),
        ("c".to_string(), Json::Bool(true)),
        ("d".to_string(), Json::Real("0.5".to_string())),
    ]);
    assert_eq!(
        doc.to_text(),
        "{\"a\":\"x\\\"y\\n\",\"b\":[-3,18446744073709551615,null],\"c\":true,\"d\":0.5}"
    );
}

#[test]
fn parsing_reads_numbers_by_their_kind() {
    let doc = Json::parse("[1, -2, 18446744073709551615, 1.25, 1e3]").unwrap();
    assert_eq!(
        doc,
        Json::Array(vec![
            Json::Int(1),
            Json::Int(-2),
            Json::UInt(18446744073709551615),
            Json::Real("1.25".to_string()),
            Json::Real("1000.0".to_string()),
        ])
    );
    assert!(Json::parse("{not json").is_err());
}

#[test]
fn the_later_of_two_members_of_one_name_counts() {
    let doc = Json::Object(vec![
        ("k".to_string(), Json::Int(1)),
        ("other".to_string(), Json::Null),
        ("k".to_string(), Json::Int(2)),
    ]);
    assert_eq!(doc.get("k"), Some(&Json::Int(2)));
    assert_eq!(doc.get("missing"), None);
    assert!(doc.get_present("other").is_none());
    assert!(doc.contains_key("other"));
    assert_eq!(doc.to_text(), "{\"k\":2,\"other\":null}");
}

#[test]
fn readers_tell_the_kinds_apart() {
    assert_eq!(Json::Int(5).as_u64(), Some(5));
    assert_eq!(Json::Int(-5).as_u64(), None);
    assert_eq!(Json::UInt(9223372036854775808).as_i64(), None);
    assert_eq!(Json::UInt(7).as_i64(), Some(7));
    assert_eq!(Json::from_u64(9223372036854775807), Json::Int(9223372036854775807));
    assert_eq!(Json::from_u64(9223372036854775808), Json::UInt(9223372036854775808));
    assert_eq!(Json::string("a").as_str(), Some("a"));
    assert_eq!(Json::Bool(false).as_bool(), Some(false));
    assert!(Json::Array(vec![]).is_array());
    assert!(Json::Object(vec![]).is_object());
    assert_eq!(
        Json::Array(vec![Json::string("a"), Json::string("b")]).to_strings(),
        Some(vec!["a".to_string(), "b".to_string()])
    );
    assert_eq!(Json::Array(vec![Json::string("a"), Json::Int(1)]).to_strings(), None);
    let copy = Json::Array(vec![Json::Object(vec![("x".to_string(), Json::Real("2.5".to_string()))])]);
    assert_eq!(copy.deep_clone(), copy);
}
