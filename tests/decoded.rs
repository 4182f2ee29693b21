use toml_test::scalar::DecodedScalar;

/// A float scalar spelled as the shortest text that reads back to `other`.
fn float(other: f64) -> DecodedScalar {
    let s = if other.is_nan() {
        "nan".to_owned()
    } else if other.is_infinite() && other.is_sign_negative() {
        "-inf".to_owned()
    } else if other.is_infinite() && other.is_sign_positive() {
        "inf".to_owned()
    } else {
        let mut buffer = ryu::Buffer::new();
        buffer.format(other).to_owned()
    };
    DecodedScalar::Float(s)
}

#[test]
fn decoded_string_equality() {
    assert_eq!(DecodedScalar::from("foo"), DecodedScalar::from("foo"));
    assert_ne!(DecodedScalar::from("foo"), DecodedScalar::from("bar"));
    assert_ne!(DecodedScalar::from("42"), DecodedScalar::from(42));
    assert_ne!(DecodedScalar::from("true"), DecodedScalar::from(true));
}

#[test]
fn decoded_integer_equality() {
    assert_eq!(DecodedScalar::from(42), DecodedScalar::from(42));
    assert_ne!(DecodedScalar::from(42), DecodedScalar::from(21));
    assert_ne!(DecodedScalar::from(42), DecodedScalar::from("42"));
}

#[test]
fn decoded_float_equality() {
    assert_eq!(float(42.0), float(42.0));
    assert_ne!(float(42.0), float(21.0));
    assert_ne!(float(42.0), DecodedScalar::from("42.0"));
}

#[test]
fn decoded_nan_equality() {
    assert_eq!(float(f64::NAN), float(f64::NAN));
    assert_eq!(float(f64::NAN), DecodedScalar::Float("nan".to_owned()));
    assert_ne!(float(f64::NAN), DecodedScalar::from("nan"));
}

#[test]
fn decoded_inf_equality() {
    assert_eq!(float(f64::INFINITY), float(f64::INFINITY));
    assert_ne!(float(f64::INFINITY), float(f64::NEG_INFINITY));
    assert_eq!(float(f64::INFINITY), DecodedScalar::Float("inf".to_owned()));
    assert_eq!(float(f64::INFINITY), DecodedScalar::Float("+inf".to_owned()));
    assert_ne!(float(f64::INFINITY), DecodedScalar::from("inf"));
}

#[test]
fn decoded_float_exp_equality() {
    assert_eq!(float(3.0e14), float(3.0e14));
    assert_eq!(float(3.0e14), DecodedScalar::Float("3.0e14".to_owned()));
}

#[test]
fn decoded_float_binary_equality() {
    #![allow(clippy::excessive_precision)]

    // These cases are equivalent, just wanting to call out how Rust, at times, encodes the
    // number in a string.
    assert_eq!(float(3141.5927), DecodedScalar::Float("3141.5927".to_owned()));
    assert_eq!(float(3141.59270000000015), DecodedScalar::Float("3141.5927".to_owned()));
}

#[test]
fn decoded_neg_inf_equality() {
    assert_eq!(float(f64::NEG_INFINITY), float(f64::NEG_INFINITY));
    assert_ne!(float(f64::NEG_INFINITY), float(f64::INFINITY));
    assert_eq!(float(f64::NEG_INFINITY), DecodedScalar::Float("-inf".to_owned()));
    assert_ne!(float(f64::NEG_INFINITY), DecodedScalar::from("-inf"));
}

#[test]
fn decoded_bool_equality() {
    assert_eq!(DecodedScalar::from(true), DecodedScalar::from(true));
    assert_ne!(DecodedScalar::from(true), DecodedScalar::from(false));
    assert_ne!(DecodedScalar::from(true), DecodedScalar::from("true"));
}

#[test]
fn decoded_datetime_equality() {
    assert_eq!(
        DecodedScalar::Datetime("1987-07-05 17:45:00Z".to_owned()),
        DecodedScalar::Datetime("1987-07-05 17:45:00Z".to_owned())
    );
    assert_eq!(
        DecodedScalar::Datetime("1987-07-05T17:45:56.123456Z".to_owned()),
        DecodedScalar::Datetime("1987-07-05T17:45:56.123456Z".to_owned()),
    );
    assert_ne!(
        DecodedScalar::Datetime("1987-07-05 17:45:00Z".to_owned()),
        DecodedScalar::Datetime("2000-07-05 17:45:00Z".to_owned())
    );
    assert_eq!(
        DecodedScalar::Datetime("1987-07-05t17:45:00z".to_owned()),
        DecodedScalar::Datetime("1987-07-05 17:45:00Z".to_owned())
    );
    assert_ne!(
        DecodedScalar::Datetime("1987-07-05 17:45:00Z".to_owned()),
        DecodedScalar::from("1987-07-05 17:45:00Z")
    );
}

#[test]
fn decoded_datetime_local_equality() {
    assert_eq!(
        DecodedScalar::DatetimeLocal("1987-07-05 17:45:00".to_owned()),
        DecodedScalar::DatetimeLocal("1987-07-05 17:45:00".to_owned())
    );
    assert_eq!(
        DecodedScalar::DatetimeLocal("1987-07-05 17:45:00.444".to_owned()),
        DecodedScalar::DatetimeLocal("1987-07-05 17:45:00.444".to_owned())
    );
    assert_ne!(
        DecodedScalar::DatetimeLocal("1987-07-05 17:45:00".to_owned()),
        DecodedScalar::DatetimeLocal("2000-07-05 17:45:00".to_owned())
    );
    assert_eq!(
        DecodedScalar::DatetimeLocal("1987-07-05t17:45:00".to_owned()),
        DecodedScalar::DatetimeLocal("1987-07-05 17:45:00".to_owned())
    );
    assert_ne!(
        DecodedScalar::DatetimeLocal("1987-07-05 17:45:00".to_owned()),
        DecodedScalar::from("1987-07-05 17:45:00")
    );
}

#[test]
fn decoded_date_local_equality() {
    assert_eq!(
        DecodedScalar::DateLocal("1987-07-05".to_owned()),
        DecodedScalar::DateLocal("1987-07-05".to_owned())
    );
    assert_ne!(
        DecodedScalar::DateLocal("1987-07-05".to_owned()),
        DecodedScalar::DateLocal("2000-07-05".to_owned())
    );
    assert_ne!(
        DecodedScalar::DateLocal("1987-07-05".to_owned()),
        DecodedScalar::from("1987-07-05")
    );
}

#[test]
fn decoded_time_local_equality() {
    assert_eq!(
        DecodedScalar::TimeLocal("17:45:00".to_owned()),
        DecodedScalar::TimeLocal("17:45:00".to_owned())
    );
    assert_eq!(
        DecodedScalar::TimeLocal("17:45:00.444".to_owned()),
        DecodedScalar::TimeLocal("17:45:00.444".to_owned())
    );
    assert_ne!(
        DecodedScalar::TimeLocal("17:45:00".to_owned()),
        DecodedScalar::TimeLocal("19:45:00".to_owned())
    );
    assert_ne!(
        DecodedScalar::TimeLocal("17:45:00".to_owned()),
        DecodedScalar::from("17:45:00")
    );
}
