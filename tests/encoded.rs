use toml_test::encoded::EncodedValue;

/// A float scalar spelled with fifteen decimals, less trailing zeros.
fn float(other: f64) -> EncodedValue {
    let s = if other.is_nan() {
        "nan".to_owned()
    } else if other.is_infinite() && other.is_sign_negative() {
        "-inf".to_owned()
    } else if other.is_infinite() && other.is_sign_positive() {
        "inf".to_owned()
    } else {
        let s = format!("{:.15}", other);
        let s = s.trim_end_matches('0');
        if s.ends_with('.') {
            format!("{}0", s)
        } else {
            s.to_owned()
        }
    };
    EncodedValue::Float(s)
}

#[test]
fn encoded_string_equality() {
    assert_eq!(EncodedValue::from("foo"), EncodedValue::from("foo"));
    assert_ne!(EncodedValue::from("foo"), EncodedValue::from("bar"));
    assert_ne!(EncodedValue::from("42"), EncodedValue::from(42));
    assert_ne!(EncodedValue::from("true"), EncodedValue::from(true));
}

#[test]
fn encoded_integer_equality() {
    assert_eq!(EncodedValue::from(42), EncodedValue::from(42));
    assert_ne!(EncodedValue::from(42), EncodedValue::from(21));
    assert_ne!(EncodedValue::from(42), EncodedValue::from("42"));
}

#[test]
fn encoded_float_equality() {
    assert_eq!(float(42.0), float(42.0));
    assert_ne!(float(42.0), float(21.0));
    assert_ne!(float(42.0), EncodedValue::from("42.0"));
}

#[test]
fn encoded_nan_equality() {
    assert_eq!(float(f64::NAN), float(f64::NAN));
    assert_eq!(float(f64::NAN), EncodedValue::Float("nan".to_owned()));
    assert_ne!(float(f64::NAN), EncodedValue::from("nan"));
}

#[test]
fn encoded_inf_equality() {
    assert_eq!(float(f64::INFINITY), float(f64::INFINITY));
    assert_ne!(float(f64::INFINITY), float(f64::NEG_INFINITY));
    assert_eq!(float(f64::INFINITY), EncodedValue::Float("inf".to_owned()));
    assert_eq!(float(f64::INFINITY), EncodedValue::Float("+inf".to_owned()));
    assert_ne!(float(f64::INFINITY), EncodedValue::from("inf"));
}

#[test]
fn encoded_float_exp_equality() {
    assert_eq!(float(3.0e14), float(3.0e14));
    assert_eq!(float(3.0e14), EncodedValue::Float("3.0e14".to_owned()));
}

#[test]
fn encoded_float_binary_equality() {
    #![allow(clippy::excessive_precision)]

    // These cases are equivalent, just wanting to call out how Rust, at times, encodes the
    // number in a string.
    assert_eq!(float(3141.5927), EncodedValue::Float("3141.5927".to_owned()));
    assert_eq!(float(3141.59270000000015), EncodedValue::Float("3141.5927".to_owned()));
}

#[test]
fn encoded_neg_inf_equality() {
    assert_eq!(float(f64::NEG_INFINITY), float(f64::NEG_INFINITY));
    assert_ne!(float(f64::NEG_INFINITY), float(f64::INFINITY));
    assert_eq!(float(f64::NEG_INFINITY), EncodedValue::Float("-inf".to_owned()));
    assert_ne!(float(f64::NEG_INFINITY), EncodedValue::from("-inf"));
}

#[test]
fn encoded_bool_equality() {
    assert_eq!(EncodedValue::from(true), EncodedValue::from(true));
    assert_ne!(EncodedValue::from(true), EncodedValue::from(false));
    assert_ne!(EncodedValue::from(true), EncodedValue::from("true"));
}

#[test]
fn encoded_datetime_equality() {
    assert_eq!(
        EncodedValue::Datetime("1987-07-05 17:45:00Z".to_owned()),
        EncodedValue::Datetime("1987-07-05 17:45:00Z".to_owned())
    );
    assert_eq!(
        EncodedValue::Datetime("1987-07-05T17:45:56.123456Z".to_owned()),
        EncodedValue::Datetime("1987-07-05T17:45:56.123456Z".to_owned()),
    );
    assert_ne!(
        EncodedValue::Datetime("1987-07-05 17:45:00Z".to_owned()),
        EncodedValue::Datetime("2000-07-05 17:45:00Z".to_owned())
    );
    assert_eq!(
        EncodedValue::Datetime("1987-07-05t17:45:00z".to_owned()),
        EncodedValue::Datetime("1987-07-05 17:45:00Z".to_owned())
    );
    assert_ne!(
        EncodedValue::Datetime("1987-07-05 17:45:00Z".to_owned()),
        EncodedValue::from("1987-07-05 17:45:00Z")
    );
}

#[test]
fn encoded_datetime_local_equality() {
    assert_eq!(
        EncodedValue::DatetimeLocal("1987-07-05 17:45:00".to_owned()),
        EncodedValue::DatetimeLocal("1987-07-05 17:45:00".to_owned())
    );
    assert_eq!(
        EncodedValue::DatetimeLocal("1987-07-05 17:45:00.444".to_owned()),
        EncodedValue::DatetimeLocal("1987-07-05 17:45:00.444".to_owned())
    );
    assert_ne!(
        EncodedValue::DatetimeLocal("1987-07-05 17:45:00".to_owned()),
        EncodedValue::DatetimeLocal("2000-07-05 17:45:00".to_owned())
    );
    assert_eq!(
        EncodedValue::DatetimeLocal("1987-07-05t17:45:00".to_owned()),
        EncodedValue::DatetimeLocal("1987-07-05 17:45:00".to_owned())
    );
    assert_ne!(
        EncodedValue::DatetimeLocal("1987-07-05 17:45:00".to_owned()),
        EncodedValue::from("1987-07-05 17:45:00")
    );
}

#[test]
fn encoded_date_local_equality() {
    assert_eq!(
        EncodedValue::DateLocal("1987-07-05".to_owned()),
        EncodedValue::DateLocal("1987-07-05".to_owned())
    );
    assert_ne!(
        EncodedValue::DateLocal("1987-07-05".to_owned()),
        EncodedValue::DateLocal("2000-07-05".to_owned())
    );
    assert_ne!(
        EncodedValue::DateLocal("1987-07-05".to_owned()),
        EncodedValue::from("1987-07-05")
    );
}

#[test]
fn encoded_time_local_equality() {
    assert_eq!(
        EncodedValue::TimeLocal("17:45:00".to_owned()),
        EncodedValue::TimeLocal("17:45:00".to_owned())
    );
    assert_eq!(
        EncodedValue::TimeLocal("17:45:00.444".to_owned()),
        EncodedValue::TimeLocal("17:45:00.444".to_owned())
    );
    assert_ne!(
        EncodedValue::TimeLocal("17:45:00".to_owned()),
        EncodedValue::TimeLocal("19:45:00".to_owned())
    );
    assert_ne!(
        EncodedValue::TimeLocal("17:45:00".to_owned()),
        EncodedValue::from("17:45:00")
    );
}
