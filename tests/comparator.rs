use toml_test::float::{float_texts_equal, float_value, FloatValue};
use toml_test::scalar::DecodedScalar;
use toml_test::value::DecodedValue;

fn scalar(k: &str, text: &str) -> DecodedScalar {
    match k {
        "string" => DecodedScalar::String(text.to_owned()),
        "integer" => DecodedScalar::Integer(text.to_owned()),
        "float" => DecodedScalar::Float(text.to_owned()),
        "bool" => DecodedScalar::Bool(text.to_owned()),
        "datetime" => DecodedScalar::Datetime(text.to_owned()),
        "datetime-local" => DecodedScalar::DatetimeLocal(text.to_owned()),
        "date-local" => DecodedScalar::DateLocal(text.to_owned()),
        _ => DecodedScalar::TimeLocal(text.to_owned()),
    }
}

fn integer(v: &str) -> DecodedValue {
    DecodedValue::Scalar(DecodedScalar::Integer(v.to_owned()))
}

fn table(entries: Vec<(&str, DecodedValue)>) -> DecodedValue {
    DecodedValue::Table(entries.into_iter().map(|(k, v)| (k.to_owned(), v)).collect())
}

#[test]
fn scalar_equality_is_reflexive_and_symmetric() {
    let samples = vec![
        scalar("string", "a"),
        scalar("integer", "007"),
        scalar("float", "1.5e3"),
        scalar("float", "nan"),
        scalar("float", "-inf"),
        scalar("float", "not a float"),
        scalar("bool", "false"),
        scalar("datetime", "1979-05-27T07:32:00-08:00"),
        scalar("datetime-local", "1979-05-27 00:32:00.999999"),
        scalar("date-local", "1979-05-27"),
        scalar("time-local", "07:32:00"),
        scalar("date-local", "not a date"),
    ];
    for a in &samples {
        assert_eq!(a, a);
        for b in &samples {
            assert_eq!(a == b, b == a);
        }
    }
}

#[test]
fn float_aliases_and_values() {
    assert_eq!(scalar("float", "inf"), scalar("float", "+inf"));
    assert_eq!(scalar("float", "nan"), scalar("float", "nan"));
    assert_eq!(scalar("float", "3.0e14"), scalar("float", "300000000000000"));
    assert_ne!(scalar("float", "42"), scalar("integer", "42"));
    assert_eq!(scalar("float", "-0.0"), scalar("float", "+0.0"));
    assert_eq!(scalar("float", "0.1"), scalar("float", "0.10000000000000001"));
    assert_ne!(scalar("float", "0.1"), scalar("float", "0.1000000000000001"));
    assert_ne!(scalar("float", "-nan"), scalar("float", "-nan"));
    assert_ne!(scalar("float", "inf"), scalar("float", "-inf"));
    assert_eq!(scalar("float", "1E2"), scalar("float", "100.0"));
}

#[test]
fn integer_and_string_have_no_leniency() {
    assert_ne!(scalar("integer", "+42"), scalar("integer", "42"));
    assert_ne!(scalar("integer", "042"), scalar("integer", "42"));
    assert_ne!(scalar("string", "42"), scalar("integer", "42"));
}

#[test]
fn datetime_separators_are_normalized() {
    assert_eq!(
        scalar("datetime", "1987-07-05 17:45:00Z"),
        scalar("datetime", "1987-07-05t17:45:00z")
    );
    assert_ne!(
        scalar("datetime", "1987-07-05 17:45:00Z"),
        scalar("datetime", "2000-07-05 17:45:00Z")
    );
    assert_eq!(
        scalar("datetime", "1987-07-05T17:45:00Z"),
        scalar("datetime", "1987-07-05T19:45:00+02:00")
    );
    assert_eq!(
        scalar("time-local", "17:45:00"),
        scalar("time-local", "17:45:00.000")
    );
}

#[test]
fn integer_text_from_i64() {
    assert_eq!(DecodedScalar::from(-1234567890123i64).as_str(), "-1234567890123");
    assert_eq!(DecodedScalar::from(0i64).as_str(), "0");
    assert_eq!(DecodedScalar::from(i64::MIN).as_str(), "-9223372036854775808");
    assert_eq!(DecodedScalar::from(false).as_str(), "false");
}

#[test]
fn table_equality_ignores_key_order() {
    let a = table(vec![("a", integer("1")), ("b", integer("2"))]);
    let b = table(vec![("b", integer("2")), ("a", integer("1"))]);
    assert_eq!(a, b);
    let c = table(vec![("a", integer("1")), ("b", integer("3"))]);
    assert_ne!(a, c);
    let d = table(vec![("a", integer("1"))]);
    assert_ne!(a, d);
    let e = table(vec![("a", integer("1")), ("c", integer("2"))]);
    assert_ne!(a, e);
}

#[test]
fn array_equality_is_order_sensitive() {
    let a = DecodedValue::Array(vec![integer("1"), integer("2")]);
    let b = DecodedValue::Array(vec![integer("2"), integer("1")]);
    assert_ne!(a, b);
    assert_eq!(a, DecodedValue::Array(vec![integer("1"), integer("2")]));
    assert_ne!(a, DecodedValue::Array(vec![integer("1")]));
    assert_ne!(DecodedValue::Array(vec![]), table(vec![]));
    assert_ne!(integer("1"), DecodedValue::Array(vec![integer("1")]));
}

#[test]
fn nested_values_compare_recursively() {
    let a = table(vec![(
        "t",
        DecodedValue::Array(vec![table(vec![("x", DecodedValue::Scalar(scalar("float", "1.0")))])]),
    )]);
    let b = table(vec![(
        "t",
        DecodedValue::Array(vec![table(vec![("x", DecodedValue::Scalar(scalar("float", "1")))])]),
    )]);
    assert_eq!(a, b);
}

#[test]
fn datetime_separators_are_rewritten() {
    assert_eq!(
        toml_test::text::normalize_datetime("1987-07-05t17:45:00z"),
        "1987-07-05T17:45:00Z"
    );
    assert_eq!(toml_test::text::normalize_datetime("1987-07-05 17:45"), "1987-07-05T17:45");
    assert_eq!(toml_test::text::normalize_datetime(""), "");
}

#[test]
fn float_texts_are_read_exactly() {
    match float_value("-0012.3400e-1") {
        FloatValue::Finite { negative, digits, point } => {
            assert!(negative);
            assert_eq!(digits, vec![1, 2, 3, 4]);
            assert_eq!(point, 1);
        }
        _ => panic!("expected a finite value"),
    }
    assert!(matches!(float_value("0.000"), FloatValue::Zero));
    assert!(matches!(float_value("1_000.0"), FloatValue::Unreadable));
    assert!(matches!(float_value("+nan"), FloatValue::NotANumber));
    assert!(float_texts_equal("1_000.0", "1_000.0"));
    assert!(float_texts_equal("1.", "1.0"));
    assert!(float_texts_equal(".5", "0.5"));
    assert!(float_texts_equal("Infinity", "inf"));
    assert!(float_texts_equal("-INF", "-infinity"));
    assert!(float_texts_equal("1e400", "inf"));
    assert!(float_texts_equal("-1e400", "-inf"));
    assert!(float_texts_equal("1e-400", "0.0"));
    assert!(!float_texts_equal("1e400", "-inf"));
    assert!(!float_texts_equal("NaN", "NaN"));
    assert!(matches!(float_value("."), FloatValue::Unreadable));
    assert!(float_texts_equal("x", "x"));
}

#[test]
fn table_equality_is_symmetric_with_repeated_keys() {
    let a = table(vec![("a", integer("1")), ("a", integer("1"))]);
    let b = table(vec![("a", integer("1")), ("b", integer("2"))]);
    assert_ne!(a, b);
    assert_ne!(b, a);
}
