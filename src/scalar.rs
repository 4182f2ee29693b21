use vstd::prelude::*;
use crate::float::{float_key, float_texts_equal, float_value, floats_equal, FloatValue};
use crate::temporal::{
    local_date_of, local_datetime_of, local_time_of, offset_datetime_of, parse_local_date,
    parse_local_datetime, parse_local_time, parse_offset_datetime,
};
use crate::text::{decimal_text, i64_text, normalize_datetime, normalize_datetime_spec, same_text};

verus! {

/// The type tag of a scalar.
#[derive(Clone, Copy, Debug, PartialEq, Eq, Structural)]
pub enum ScalarKind {
    String,
    Integer,
    Float,
    Bool,
    Datetime,
    DatetimeLocal,
    DateLocal,
    TimeLocal,
}

/// A scalar of a decoded document: a type tag and the lexical text.
///
/// The text is kept as written, so that the comparator can apply the rules
/// of each type rather than one native representation.
#[derive(Clone, Debug)]
pub enum DecodedScalar {
    String(String),
    Integer(String),
    Float(String),
    Bool(String),
    Datetime(String),
    DatetimeLocal(String),
    DateLocal(String),
    TimeLocal(String),
}

impl DecodedScalar {
    pub open spec fn kind(&self) -> ScalarKind {
        match self {
            DecodedScalar::String(_) => ScalarKind::String,
            DecodedScalar::Integer(_) => ScalarKind::Integer,
            DecodedScalar::Float(_) => ScalarKind::Float,
            DecodedScalar::Bool(_) => ScalarKind::Bool,
            DecodedScalar::Datetime(_) => ScalarKind::Datetime,
            DecodedScalar::DatetimeLocal(_) => ScalarKind::DatetimeLocal,
            DecodedScalar::DateLocal(_) => ScalarKind::DateLocal,
            DecodedScalar::TimeLocal(_) => ScalarKind::TimeLocal,
        }
    }

    pub open spec fn text(&self) -> Seq<char> {
        match self {
            DecodedScalar::String(v) => v@,
            DecodedScalar::Integer(v) => v@,
            DecodedScalar::Float(v) => v@,
            DecodedScalar::Bool(v) => v@,
            DecodedScalar::Datetime(v) => v@,
            DecodedScalar::DatetimeLocal(v) => v@,
            DecodedScalar::DateLocal(v) => v@,
            DecodedScalar::TimeLocal(v) => v@,
        }
    }

    /// The lexical text of the scalar.
    pub fn as_str(&self) -> (r: &str)
        ensures
            r@ == self.text(),
    {
        match self {
            DecodedScalar::String(v) => v.as_str(),
            DecodedScalar::Integer(v) => v.as_str(),
            DecodedScalar::Float(v) => v.as_str(),
            DecodedScalar::Bool(v) => v.as_str(),
            DecodedScalar::Datetime(v) => v.as_str(),
            DecodedScalar::DatetimeLocal(v) => v.as_str(),
            DecodedScalar::DateLocal(v) => v.as_str(),
            DecodedScalar::TimeLocal(v) => v.as_str(),
        }
    }

    /// The type tag of the scalar.
    pub fn scalar_kind(&self) -> (r: ScalarKind)
        ensures
            r == self.kind(),
    {
        match self {
            DecodedScalar::String(_) => ScalarKind::String,
            DecodedScalar::Integer(_) => ScalarKind::Integer,
            DecodedScalar::Float(_) => ScalarKind::Float,
            DecodedScalar::Bool(_) => ScalarKind::Bool,
            DecodedScalar::Datetime(_) => ScalarKind::Datetime,
            DecodedScalar::DatetimeLocal(_) => ScalarKind::DatetimeLocal,
            DecodedScalar::DateLocal(_) => ScalarKind::DateLocal,
            DecodedScalar::TimeLocal(_) => ScalarKind::TimeLocal,
        }
    }
}

impl<'a> From<&'a str> for DecodedScalar {
    fn from(other: &'a str) -> (r: DecodedScalar)
        ensures
            r.kind() == ScalarKind::String,
            r.text() == other@,
    {
        DecodedScalar::String(other.to_owned())
    }
}

impl<'a> vstd::std_specs::convert::FromSpecImpl<&'a str> for DecodedScalar {
    open spec fn obeys_from_spec() -> bool {
        false
    }

    open spec fn from_spec(v: &'a str) -> DecodedScalar {
        arbitrary()
    }
}

impl From<String> for DecodedScalar {
    fn from(other: String) -> (r: DecodedScalar)
        ensures
            r.kind() == ScalarKind::String,
            r.text() == other@,
    {
        DecodedScalar::String(other)
    }
}

impl vstd::std_specs::convert::FromSpecImpl<String> for DecodedScalar {
    open spec fn obeys_from_spec() -> bool {
        false
    }

    open spec fn from_spec(v: String) -> DecodedScalar {
        arbitrary()
    }
}

impl<'a> From<&'a String> for DecodedScalar {
    fn from(other: &'a String) -> (r: DecodedScalar)
        ensures
            r.kind() == ScalarKind::String,
            r.text() == other@,
    {
        DecodedScalar::String(other.clone())
    }
}

impl<'a> vstd::std_specs::convert::FromSpecImpl<&'a String> for DecodedScalar {
    open spec fn obeys_from_spec() -> bool {
        false
    }

    open spec fn from_spec(v: &'a String) -> DecodedScalar {
        arbitrary()
    }
}

impl From<i64> for DecodedScalar {
    fn from(other: i64) -> (r: DecodedScalar)
        ensures
            r.kind() == ScalarKind::Integer,
            r.text() == decimal_text(other as int),
    {
        DecodedScalar::Integer(i64_text(other))
    }
}

impl vstd::std_specs::convert::FromSpecImpl<i64> for DecodedScalar {
    open spec fn obeys_from_spec() -> bool {
        false
    }

    open spec fn from_spec(v: i64) -> DecodedScalar {
        arbitrary()
    }
}

impl From<bool> for DecodedScalar {
    fn from(other: bool) -> (r: DecodedScalar)
        ensures
            r.kind() == ScalarKind::Bool,
            r.text() == (if other {
                "true"@
            } else {
                "false"@
            }),
    {
        if other {
            DecodedScalar::Bool(String::from_str("true"))
        } else {
            DecodedScalar::Bool(String::from_str("false"))
        }
    }
}

impl vstd::std_specs::convert::FromSpecImpl<bool> for DecodedScalar {
    open spec fn obeys_from_spec() -> bool {
        false
    }

    open spec fn from_spec(v: bool) -> DecodedScalar {
        arbitrary()
    }
}

/// Two parsed readings agree: both parsed to the same value, or neither
/// parsed and the texts are the same.
pub open spec fn readings_equal<T>(x: Option<T>, y: Option<T>, s: Seq<char>, o: Seq<char>) -> bool {
    match (x, y) {
        (Some(p), Some(q)) => p == q,
        (None, None) => s == o,
        _ => false,
    }
}

/// Semantic equality of scalars.
///
/// Scalars of different tags are never equal. Strings, integers and
/// booleans are equal when their texts are. Floats follow
/// [`floats_equal`]. Date-times, after their separators are normalized,
/// and dates and times compare by the value chrono reads from them; texts
/// that chrono cannot read compare by text.
pub open spec fn scalars_equal(a: DecodedScalar, b: DecodedScalar) -> bool {
    match (a, b) {
        (DecodedScalar::String(s), DecodedScalar::String(o)) => s@ == o@,
        (DecodedScalar::Integer(s), DecodedScalar::Integer(o)) => s@ == o@,
        (DecodedScalar::Float(s), DecodedScalar::Float(o)) => floats_equal(s@, o@),
        (DecodedScalar::Bool(s), DecodedScalar::Bool(o)) => s@ == o@,
        (DecodedScalar::Datetime(s), DecodedScalar::Datetime(o)) => {
            let ns = normalize_datetime_spec(s@);
            let no = normalize_datetime_spec(o@);
            readings_equal(offset_datetime_of(ns), offset_datetime_of(no), ns, no)
        },
        (DecodedScalar::DatetimeLocal(s), DecodedScalar::DatetimeLocal(o)) => {
            let ns = normalize_datetime_spec(s@);
            let no = normalize_datetime_spec(o@);
            readings_equal(local_datetime_of(ns), local_datetime_of(no), ns, no)
        },
        (DecodedScalar::DateLocal(s), DecodedScalar::DateLocal(o)) => readings_equal(
            local_date_of(s@),
            local_date_of(o@),
            s@,
            o@,
        ),
        (DecodedScalar::TimeLocal(s), DecodedScalar::TimeLocal(o)) => readings_equal(
            local_time_of(s@),
            local_time_of(o@),
            s@,
            o@,
        ),
        _ => false,
    }
}

impl PartialEq for DecodedScalar {
    fn eq(&self, other: &DecodedScalar) -> (r: bool) {
        match (self, other) {
            (DecodedScalar::String(s), DecodedScalar::String(o)) => same_text(s.as_str(), o.as_str()),
            (DecodedScalar::Integer(s), DecodedScalar::Integer(o)) => same_text(
                s.as_str(),
                o.as_str(),
            ),
            (DecodedScalar::Float(s), DecodedScalar::Float(o)) => float_texts_equal(
                s.as_str(),
                o.as_str(),
            ),
            (DecodedScalar::Bool(s), DecodedScalar::Bool(o)) => same_text(s.as_str(), o.as_str()),
            (DecodedScalar::Datetime(s), DecodedScalar::Datetime(o)) => {
                let ns = normalize_datetime(s.as_str());
                let no = normalize_datetime(o.as_str());
                match (parse_offset_datetime(ns.as_str()), parse_offset_datetime(no.as_str())) {
                    (Some(p), Some(q)) => p.0 == q.0 && p.1 == q.1,
                    (None, None) => same_text(ns.as_str(), no.as_str()),
                    _ => false,
                }
            },
            (DecodedScalar::DatetimeLocal(s), DecodedScalar::DatetimeLocal(o)) => {
                let ns = normalize_datetime(s.as_str());
                let no = normalize_datetime(o.as_str());
                match (parse_local_datetime(ns.as_str()), parse_local_datetime(no.as_str())) {
                    (Some(p), Some(q)) => p.0 == q.0 && p.1 == q.1 && p.2 == q.2,
                    (None, None) => same_text(ns.as_str(), no.as_str()),
                    _ => false,
                }
            },
            (DecodedScalar::DateLocal(s), DecodedScalar::DateLocal(o)) => {
                match (parse_local_date(s.as_str()), parse_local_date(o.as_str())) {
                    (Some(p), Some(q)) => p == q,
                    (None, None) => same_text(s.as_str(), o.as_str()),
                    _ => false,
                }
            },
            (DecodedScalar::TimeLocal(s), DecodedScalar::TimeLocal(o)) => {
                match (parse_local_time(s.as_str()), parse_local_time(o.as_str())) {
                    (Some(p), Some(q)) => p.0 == q.0 && p.1 == q.1,
                    (None, None) => same_text(s.as_str(), o.as_str()),
                    _ => false,
                }
            },
            _ => false,
        }
    }
}

impl vstd::std_specs::cmp::PartialEqSpecImpl for DecodedScalar {
    open spec fn obeys_eq_spec() -> bool {
        true
    }

    open spec fn eq_spec(&self, other: &DecodedScalar) -> bool {
        scalars_equal(*self, *other)
    }
}

impl Eq for DecodedScalar {

}

/// Every scalar equals itself, except a float spelled as a not-a-number
/// other than the literal `nan` (such as `-nan`), which by IEEE-754 equals
/// nothing.
pub proof fn scalar_equality_reflexive(a: DecodedScalar)
    requires
        a.kind() == ScalarKind::Float && float_key(a.text()) is NotANumber ==> a.text() == "nan"@,
    ensures
        scalars_equal(a, a),
{
}

/// Scalar equality does not depend on the order of its operands.
pub proof fn scalar_equality_symmetric(a: DecodedScalar, b: DecodedScalar)
    ensures
        scalars_equal(a, b) == scalars_equal(b, a),
{
}

/// Whether the comparator can read a scalar's text under its tag: floats
/// as floats, date-times (after normalizing their separators), dates and
/// times as chrono reads them. Strings, integers and booleans are compared
/// as text and always readable.
pub open spec fn scalar_readable(a: DecodedScalar) -> bool {
    match a {
        DecodedScalar::Float(s) => !(float_key(s@) is Unreadable),
        DecodedScalar::Datetime(s) => offset_datetime_of(normalize_datetime_spec(s@)) is Some,
        DecodedScalar::DatetimeLocal(s) => local_datetime_of(normalize_datetime_spec(s@)) is Some,
        DecodedScalar::DateLocal(s) => local_date_of(s@) is Some,
        DecodedScalar::TimeLocal(s) => local_time_of(s@) is Some,
        _ => true,
    }
}

impl DecodedScalar {
    /// Whether the comparator can read the text under its tag.
    pub fn readable(&self) -> (r: bool)
        ensures
            r == scalar_readable(*self),
    {
        match self {
            DecodedScalar::Float(s) => !(float_value(s.as_str()) matches FloatValue::Unreadable),
            DecodedScalar::Datetime(s) => parse_offset_datetime(normalize_datetime(s.as_str()).as_str()).is_some(),
            DecodedScalar::DatetimeLocal(s) => parse_local_datetime(
                normalize_datetime(s.as_str()).as_str(),
            ).is_some(),
            DecodedScalar::DateLocal(s) => parse_local_date(s.as_str()).is_some(),
            DecodedScalar::TimeLocal(s) => parse_local_time(s.as_str()).is_some(),
            _ => true,
        }
    }
}

} // verus!
