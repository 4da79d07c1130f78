use fungraph::json::{DecodeError, Json, JsonMember, JsonNumber};

#[test]
fn parse_reads_every_kind_of_value() {
    let doc = Json::parse(r#"{"a": [1, -2, 2.5, "x", true, null], "b": {"c": "d"}}"#).unwrap();
    let a = doc.get("a").unwrap();
    assert_eq!(
        *a,
        Json::Array(vec![
            Json::Number(JsonNumber::PosInt(1)),
            Json::Number(JsonNumber::NegInt(-2)),
            Json::Number(JsonNumber::Float("2.5".to_string())),
            Json::Str("x".to_string()),
            Json::Bool(true),
            Json::Null,
        ])
    );
    assert_eq!(
        *doc.get("b").unwrap(),
        Json::Object(vec![JsonMember {
            key: "c".to_string(),
            value: Json::Str("d".to_string()),
        }])
    );
    assert!(doc.get("missing").is_none());
}

#[test]
fn parse_reports_what_serde_json_reports() {
    let error = Json::parse("{\"a\": ").unwrap_err();
    assert!(error.contains("EOF"), "{}", error);
    assert!(Json::parse("").is_err());
    assert!(Json::parse("[DONE]").is_err());
}

#[test]
fn render_prints_compact_json() {
    let doc = Json::Object(vec![
        JsonMember {
            key: "b".to_string(),
            value: Json::Array(vec![
                Json::Number(JsonNumber::PosInt(7)),
                Json::Number(JsonNumber::NegInt(-7)),
                Json::Number(JsonNumber::Float("1.25".to_string())),
                Json::Null,
                Json::Bool(false),
            ]),
        },
        JsonMember {
            key: "a".to_string(),
            value: Json::Str("q\"t".to_string()),
        },
    ]);
    assert_eq!(doc.render(), r#"{"a":"q\"t","b":[7,-7,1.25,null,false]}"#);
    assert_eq!(Json::Null.render(), "null");
    assert_eq!(
        Json::Number(JsonNumber::Float("not a number".to_string())).render(),
        "null"
    );
}

#[test]
fn render_then_parse_gives_the_document_back() {
    let text = r#"{"k":[1,{"n":null},"s"],"z":-3}"#;
    let doc = Json::parse(text).unwrap();
    assert_eq!(doc.render(), text);
    assert_eq!(Json::parse(&doc.render()).unwrap(), doc);
    assert_eq!(doc.clone(), doc);
    assert_eq!(doc.duplicate(), doc);
}

#[test]
fn null_members_count_as_absent() {
    let doc = Json::parse(r#"{"a": null, "b": 1}"#).unwrap();
    assert!(doc.get("a").is_none());
    assert_eq!(doc.u32_member("b"), Ok(Some(1)));
    assert_eq!(doc.u32_member("a"), Ok(None));
    assert_eq!(doc.text_member("a"), Ok(None));
    assert!(Json::Str("x".to_string()).get("a").is_none());
}

#[test]
fn typed_members_check_the_type_and_the_range() {
    let doc = Json::parse(
        r#"{"t": "x", "n": 4294967295, "big": 4294967296, "neg": -1, "min": -2147483648,
            "low": -2147483649, "top": 2147483647, "over": 2147483648, "l": ["a", "b"], "m": ["a", 1]}"#,
    )
    .unwrap();
    assert_eq!(doc.text_member("t"), Ok(Some("x".to_string())));
    assert_eq!(doc.text_member("n"), Err(DecodeError::WrongType("n")));
    assert_eq!(doc.u32_member("n"), Ok(Some(4294967295)));
    assert_eq!(doc.u32_member("big"), Err(DecodeError::WrongType("big")));
    assert_eq!(doc.u32_member("neg"), Err(DecodeError::WrongType("neg")));
    assert_eq!(doc.u32_member("t"), Err(DecodeError::WrongType("t")));
    assert_eq!(doc.i32_member("neg"), Ok(Some(-1)));
    assert_eq!(doc.i32_member("min"), Ok(Some(-2147483648)));
    assert_eq!(doc.i32_member("low"), Err(DecodeError::WrongType("low")));
    assert_eq!(doc.i32_member("top"), Ok(Some(2147483647)));
    assert_eq!(doc.i32_member("over"), Err(DecodeError::WrongType("over")));
    assert_eq!(
        doc.texts_member("l"),
        Ok(Some(vec!["a".to_string(), "b".to_string()]))
    );
    assert_eq!(doc.texts_member("m"), Err(DecodeError::WrongType("m")));
    assert_eq!(doc.texts_member("t"), Err(DecodeError::WrongType("t")));
    assert_eq!(doc.texts_member("none"), Ok(None));
    assert_eq!(doc.array_member("l").unwrap().unwrap().len(), 2);
    assert_eq!(doc.array_member("t"), Err(DecodeError::WrongType("t")));
}

#[test]
fn decode_errors_have_messages() {
    assert_eq!(
        DecodeError::NotAnObject("usage").to_string(),
        "expected an object: usage"
    );
    assert_eq!(DecodeError::WrongType("id").to_string(), "invalid type: id");
    assert_eq!(
        DecodeError::UnknownValue("role").to_string(),
        "unknown variant: role"
    );
    assert_eq!(DecodeError::Missing("name").to_string(), "missing field: name");
}

#[test]
fn builders_make_the_documents_they_name() {
    assert_eq!(Json::from_text("x").render(), "\"x\"");
    assert_eq!(Json::from_u32(12).render(), "12");
    assert_eq!(
        Json::from_texts(&vec!["a".to_string(), "b".to_string()]).render(),
        r#"["a","b"]"#
    );
    assert_eq!(Json::object().render(), "{}");
    let mut members = Vec::new();
    Json::push_member(&mut members, "k", Json::Bool(true));
    assert_eq!(Json::from_members(members).render(), r#"{"k":true}"#);
    assert_eq!(Json::from_items(vec![Json::Null]).render(), "[null]");
    assert!(Json::object().members().unwrap().is_empty());
    assert!(Json::Null.members().is_none());
}

#[test]
fn the_last_member_under_a_key_is_found() {
    let doc = Json::Object(vec![
        JsonMember {
            key: "k".to_string(),
            value: Json::from_u32(1),
        },
        JsonMember {
            key: "k".to_string(),
            value: Json::from_u32(2),
        },
    ]);
    assert_eq!(doc.u32_member("k"), Ok(Some(2)));
    assert_eq!(doc.render(), r#"{"k":2}"#);
}
