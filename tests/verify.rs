use toml_test::error::{Error, ErrorKind};
use toml_test::scalar::DecodedScalar;
use toml_test::value::DecodedValue;
use toml_test::verify::{judge_invalid_case, judge_valid_case, Command, Decoder, Encoder, ProcessOutput};

/// A decoder that reads only `key = "<text>"`, keeping the text as written.
struct KeyValue;

impl Decoder for KeyValue {
    fn decode(&self, data: &[u8]) -> Result<DecodedValue, Error> {
        let text = std::str::from_utf8(data).map_err(|e| Error::new(e.to_string()))?;
        let (key, value) = text.split_once(" = ").ok_or_else(|| Error::new("expected `=`".to_owned()))?;
        let value = value.trim_end();
        if value.len() < 2 || !value.starts_with('"') || !value.ends_with('"') {
            return Err(Error::new("expected a string".to_owned()));
        }
        Ok(DecodedValue::Table(vec![(
            key.to_owned(),
            DecodedValue::Scalar(DecodedScalar::from(&value[1..value.len() - 1])),
        )]))
    }

    fn name(&self) -> &str {
        "key-value"
    }
}

/// A decoder that capitalises every string it reads.
struct Capitalising;

impl Decoder for Capitalising {
    fn decode(&self, data: &[u8]) -> Result<DecodedValue, Error> {
        match KeyValue.decode(data)? {
            DecodedValue::Table(entries) => Ok(DecodedValue::Table(
                entries
                    .into_iter()
                    .map(|(k, v)| match v {
                        DecodedValue::Scalar(s) => {
                            let mut t = s.as_str().to_owned();
                            if let Some(first) = t.get_mut(0..1) {
                                first.make_ascii_uppercase();
                            }
                            (k, DecodedValue::Scalar(DecodedScalar::from(t)))
                        }
                        other => (k, other),
                    })
                    .collect(),
            )),
            other => Ok(other),
        }
    }

    fn name(&self) -> &str {
        "capitalising"
    }
}

/// An encoder that writes `key = "<text>"` for a table of one string.
struct KeyValueWriter;

impl Encoder for KeyValueWriter {
    fn encode(&self, data: DecodedValue) -> Result<String, Error> {
        match data {
            DecodedValue::Table(entries) if entries.len() == 1 => match &entries[0].1 {
                DecodedValue::Scalar(s) => Ok(format!("{} = \"{}\"\n", entries[0].0, s.as_str())),
                _ => Err(Error::new("only strings".to_owned())),
            },
            _ => Err(Error::new("only one key".to_owned())),
        }
    }

    fn name(&self) -> &str {
        "key-value-writer"
    }
}

const EXPECTED: &[u8] = br#"{"key": {"type":"string","value":"value"}}"#;

#[test]
fn valid_case_passes_for_a_conforming_decoder() {
    assert!(KeyValue.verify_valid_case(b"key = \"value\"", EXPECTED).is_ok());
}

#[test]
fn valid_case_fails_with_both_values_shown() {
    let err = Capitalising.verify_valid_case(b"key = \"value\"", EXPECTED).unwrap_err();
    assert_eq!(err.kind(), ErrorKind::Mismatch);
    let message = err.message();
    assert!(message.starts_with("Unexpected decoding.\nExpected\n"));
    assert!(message.contains("\"value\": \"value\""));
    assert!(message.contains("\"value\": \"Value\""));
}

#[test]
fn valid_case_keeps_the_decoder_error() {
    let err = KeyValue.verify_valid_case(b"key = 1", EXPECTED).unwrap_err();
    assert_eq!(err.kind(), ErrorKind::Implementation);
    assert_eq!(err.message(), "expected a string");
}

#[test]
fn valid_case_with_bad_expected_encoding_is_a_corpus_error() {
    let err = KeyValue.verify_valid_case(b"key = \"value\"", b"[1]").unwrap_err();
    assert_eq!(err.kind(), ErrorKind::Corpus);
}

#[test]
fn invalid_case_succeeds_with_the_decoder_error() {
    let err = KeyValue.verify_invalid_case(b"key = value").unwrap();
    assert_eq!(err.message(), "expected a string");
}

#[test]
fn invalid_case_fails_with_the_decoded_value() {
    let err = KeyValue.verify_invalid_case(b"key = \"value\"").unwrap_err();
    assert_eq!(err.kind(), ErrorKind::Mismatch);
    assert!(err.message().starts_with("Should have failed but got:\n"));
    assert!(err.message().contains("\"value\": \"value\""));
}

#[test]
fn judges_take_outcomes_directly() {
    let expected = DecodedValue::Scalar(DecodedScalar::from(1i64));
    assert!(judge_valid_case(Ok(DecodedValue::Scalar(DecodedScalar::from(1i64))), &expected).is_ok());
    let e = judge_valid_case(Err(Error::new("boom".to_owned())), &expected).unwrap_err();
    assert_eq!(e.message(), "boom");
    assert_eq!(judge_invalid_case(Err(Error::new("bad".to_owned()))).unwrap().message(), "bad");
    assert!(judge_invalid_case(Ok(expected)).is_err());
}

#[test]
fn encoder_round_trips_through_a_decoder() {
    assert!(KeyValueWriter.verify_valid_case(EXPECTED, &KeyValue).is_ok());
    let err = KeyValueWriter.verify_valid_case(EXPECTED, &Capitalising).unwrap_err();
    assert_eq!(err.kind(), ErrorKind::Mismatch);
    let bad = br#"{"a": {"type":"string","value":"x"}, "b": {"type":"string","value":"y"}}"#;
    let err = KeyValueWriter.verify_valid_case(bad, &KeyValue).unwrap_err();
    assert_eq!(err.message(), "only one key");
}

#[test]
fn command_reads_decoder_output() {
    let cmd = Command::new("./decoder");
    assert_eq!(cmd.name(), "./decoder");
    let ok = ProcessOutput {
        success: true,
        code: Some(0),
        stdout: br#"{"a": {"type": "bool", "value": "true"}}"#.to_vec(),
        stderr: vec![],
    };
    let v = cmd.decode_output(&ok).unwrap();
    assert_eq!(
        v,
        DecodedValue::Table(vec![("a".to_owned(), DecodedValue::Scalar(DecodedScalar::from(true)))])
    );
    let garbled = ProcessOutput { success: true, code: Some(0), stdout: b"{".to_vec(), stderr: vec![] };
    assert_eq!(cmd.decode_output(&garbled).unwrap_err().kind(), ErrorKind::Implementation);
    let failed = ProcessOutput {
        success: false,
        code: Some(2),
        stdout: vec![],
        stderr: b"bad input".to_vec(),
    };
    let e = cmd.decode_output(&failed).unwrap_err();
    assert_eq!(e.kind(), ErrorKind::Process);
    assert_eq!(e.message(), "./decoder failed with Some(2): bad input");
    let killed = ProcessOutput { success: false, code: None, stdout: vec![], stderr: vec![] };
    assert_eq!(cmd.decode_output(&killed).unwrap_err().message(), "./decoder failed with None: ");
}

#[test]
fn command_reads_encoder_output() {
    let cmd = Command::new("enc");
    let ok = ProcessOutput { success: true, code: Some(0), stdout: b"a = 1\n".to_vec(), stderr: vec![] };
    assert_eq!(cmd.encode_output(ok).unwrap(), "a = 1\n");
    let bad = ProcessOutput { success: true, code: Some(0), stdout: vec![0xff], stderr: vec![] };
    assert_eq!(cmd.encode_output(bad).unwrap_err().kind(), ErrorKind::Implementation);
    let failed = ProcessOutput { success: false, code: Some(-1), stdout: vec![], stderr: b"x".to_vec() };
    assert_eq!(cmd.encode_output(failed).unwrap_err().message(), "enc failed with Some(-1): x");
    let input = cmd.encode_input(&DecodedValue::Array(vec![]));
    assert_eq!(input, "[]");
}

#[test]
fn messages_carry_the_canonical_encoding_and_raw_text() {
    let e = DecodedValue::from_slice(b"[1]").unwrap_err();
    assert_eq!(e.message(), "failed decoding: not a canonical encoding\n```json\n[1]\n```");
    let e = DecodedValue::from_slice(b"{").unwrap_err();
    assert_eq!(e.message(), "failed decoding: not JSON\n```json\n{\n```");
    let v = DecodedValue::Scalar(DecodedScalar::from("x"));
    let err = judge_invalid_case(Ok(v)).unwrap_err();
    assert_eq!(
        err.message(),
        "Should have failed but got:\n{\n  \"type\": \"string\",\n  \"value\": \"x\"\n}"
    );
    let cmd = Command::new("d");
    let out = ProcessOutput { success: true, code: Some(0), stdout: b"7".to_vec(), stderr: vec![] };
    assert_eq!(
        cmd.decode_output(&out).unwrap_err().message(),
        "failed decoding: not a canonical encoding\n```json\n7\n```"
    );
}

#[test]
fn encoder_error_passes_through_and_rejections_show_the_text() {
    struct Failing;
    impl Encoder for Failing {
        fn encode(&self, _: DecodedValue) -> Result<String, Error> {
            Err(Error::new("cannot encode".to_owned()))
        }
        fn name(&self) -> &str {
            "failing"
        }
    }
    struct Garbling;
    impl Encoder for Garbling {
        fn encode(&self, _: DecodedValue) -> Result<String, Error> {
            Ok("key = value".to_owned())
        }
        fn name(&self) -> &str {
            "garbling"
        }
    }
    assert_eq!(Failing.verify_valid_case(EXPECTED, &KeyValue).unwrap_err().message(), "cannot encode");
    let err = Garbling.verify_valid_case(EXPECTED, &KeyValue).unwrap_err();
    assert_eq!(err.kind(), ErrorKind::Implementation);
    assert_eq!(
        err.message(),
        "Could not parse encoded TOML: expected a string\n```\nkey = value\n```"
    );
}

#[test]
fn unreadable_scalars_are_not_compared() {
    let bad = DecodedValue::Scalar(DecodedScalar::Datetime("yesterday".to_owned()));
    let good = DecodedValue::Scalar(DecodedScalar::Datetime("1987-07-05T17:45:00Z".to_owned()));
    let e = judge_valid_case(Ok(bad), &good).unwrap_err();
    assert_eq!(e.kind(), ErrorKind::Unreadable);
    assert!(e.message().starts_with("Unreadable scalar.\nExpected\n"));
    let float = DecodedValue::Scalar(DecodedScalar::Float("1_000.0".to_owned()));
    let e = judge_valid_case(Ok(DecodedValue::Array(vec![float])), &DecodedValue::Array(vec![])).unwrap_err();
    assert_eq!(e.kind(), ErrorKind::Unreadable);
    assert!(DecodedScalar::Float("inf".to_owned()).readable());
    assert!(!DecodedScalar::TimeLocal("25:00:00".to_owned()).readable());
}
