use toml_test::error::ErrorKind;
use toml_test::scalar::DecodedScalar;
use toml_test::value::DecodedValue;

#[test]
fn reads_scalar_table_and_array() {
    let v = DecodedValue::from_slice(
        br#"{"a": {"type": "integer", "value": "1"}, "b": [{"type": "string", "value": "x"}], "c": {}}"#,
    )
    .unwrap();
    match &v {
        DecodedValue::Table(t) => {
            assert_eq!(t.len(), 3);
            let a = t.iter().find(|(k, _)| k == "a").unwrap();
            assert_eq!(a.1, DecodedValue::Scalar(DecodedScalar::Integer("1".to_owned())));
            let b = t.iter().find(|(k, _)| k == "b").unwrap();
            assert_eq!(
                b.1,
                DecodedValue::Array(vec![DecodedValue::Scalar(DecodedScalar::from("x"))])
            );
        }
        _ => panic!("expected a table"),
    }
}

#[test]
fn reads_every_tag() {
    for (tag, expected) in [
        ("string", DecodedScalar::String("v".to_owned())),
        ("integer", DecodedScalar::Integer("v".to_owned())),
        ("float", DecodedScalar::Float("v".to_owned())),
        ("bool", DecodedScalar::Bool("v".to_owned())),
        ("datetime", DecodedScalar::Datetime("v".to_owned())),
        ("datetime-local", DecodedScalar::DatetimeLocal("v".to_owned())),
        ("date-local", DecodedScalar::DateLocal("v".to_owned())),
        ("time-local", DecodedScalar::TimeLocal("v".to_owned())),
    ] {
        let text = format!(r#"{{"value": "v", "type": "{}"}}"#, tag);
        let v = DecodedValue::from_slice(text.as_bytes()).unwrap();
        match v {
            DecodedValue::Scalar(s) => {
                assert_eq!(s.scalar_kind(), expected.scalar_kind());
                assert_eq!(s.as_str(), "v");
            }
            _ => panic!("expected a scalar"),
        }
    }
}

#[test]
fn unknown_tag_is_a_table_member_error() {
    // An object that is not a tagged scalar is a table, and its members
    // must be encodings themselves.
    let e = DecodedValue::from_slice(br#"{"type": "complex", "value": "1+i"}"#).unwrap_err();
    assert_eq!(e.kind(), ErrorKind::Corpus);
}

#[test]
fn rejects_other_shapes() {
    for text in [&b"1"[..], b"\"s\"", b"null", b"true", b"[1]", b"not json"] {
        let e = DecodedValue::from_slice(text).unwrap_err();
        assert_eq!(e.kind(), ErrorKind::Corpus);
    }
    let e = DecodedValue::from_slice(b"{").unwrap_err();
    assert!(e.message().starts_with("failed decoding"));
}

#[test]
fn writes_the_canonical_encoding() {
    let v = DecodedValue::Table(vec![(
        "key".to_owned(),
        DecodedValue::Scalar(DecodedScalar::from("value")),
    )]);
    let text = v.to_string_pretty().unwrap();
    let parsed: serde_json::Value = serde_json::from_str(&text).unwrap();
    assert_eq!(parsed["key"]["type"], "string");
    assert_eq!(parsed["key"]["value"], "value");
    let back = DecodedValue::from_slice(text.as_bytes()).unwrap();
    assert_eq!(back, v);
}
