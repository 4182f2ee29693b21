use vstd::prelude::*;
use crate::error::{Error, ErrorKind};
use crate::json::{json_of, lossy_text, lossy_text_of, parse_json, pretty_json, pretty_json_of, Json, JsonModel};
use crate::scalar::{scalar_readable, scalars_equal, DecodedScalar, ScalarKind};
use crate::text::same_text;

verus! {

/// Logical representation of a decoded document.
///
/// A table is a list of key and value pairs whose keys are unique; the
/// order of its entries carries no meaning. The order of an array does.
#[derive(Debug)]
pub enum DecodedValue {
    Scalar(DecodedScalar),
    Table(Vec<(String, DecodedValue)>),
    Array(Vec<DecodedValue>),
}

/// The decoded tree under its shorter name.
pub type Decoded = DecodedValue;

/// The first index from `j` on whose key is `k`.
pub open spec fn key_index_from(ys: Seq<(String, DecodedValue)>, k: Seq<char>, j: int) -> Option<int>
    decreases ys.len() - j,
{
    if j < 0 || j >= ys.len() {
        None
    } else if ys[j].0@ == k {
        Some(j)
    } else {
        key_index_from(ys, k, j + 1)
    }
}

/// Semantic equality of decoded values: scalars by [`scalars_equal`],
/// tables when they have as many entries and each key of either is a key of
/// the other with an equal value, arrays when they have the same length and
/// equal elements in order. Values of different shapes are never equal.
/// With unique keys, two tables are equal exactly when they have the same
/// keys and equal values under each.
pub open spec fn values_equal(a: DecodedValue, b: DecodedValue) -> bool
    decreases a, 0nat,
{
    match (a, b) {
        (DecodedValue::Scalar(x), DecodedValue::Scalar(y)) => scalars_equal(x, y),
        (DecodedValue::Table(x), DecodedValue::Table(y)) => x@.len() == y@.len() && entries_found(
            x@,
            y@,
            0,
        ) && entries_matched(x@, y@, 0),
        (DecodedValue::Array(x), DecodedValue::Array(y)) => x@.len() == y@.len()
            && elements_equal(x@, y@, 0),
        _ => false,
    }
}

/// Each entry of `xs` from `i` on has its key in `ys`, with an equal value.
pub open spec fn entries_found(
    xs: Seq<(String, DecodedValue)>,
    ys: Seq<(String, DecodedValue)>,
    i: int,
) -> bool
    decreases xs, xs.len() - i,
{
    if i < 0 || i >= xs.len() {
        true
    } else {
        match key_index_from(ys, xs[i].0@, 0) {
            Some(j) => values_equal(xs[i].1, ys[j].1) && entries_found(xs, ys, i + 1),
            None => false,
        }
    }
}

/// Each entry of `ys` from `i` on has its key in `xs`, with an equal value.
pub open spec fn entries_matched(
    xs: Seq<(String, DecodedValue)>,
    ys: Seq<(String, DecodedValue)>,
    i: int,
) -> bool
    decreases xs, ys.len() - i,
{
    if i < 0 || i >= ys.len() {
        true
    } else {
        match key_index_from(xs, ys[i].0@, 0) {
            Some(m) => 0 <= m < xs.len() && values_equal(xs[m].1, ys[i].1) && entries_matched(
                xs,
                ys,
                i + 1,
            ),
            None => false,
        }
    }
}

/// The elements of `xs` and `ys` from `i` on are equal in order.
pub open spec fn elements_equal(xs: Seq<DecodedValue>, ys: Seq<DecodedValue>, i: int) -> bool
    decreases xs, xs.len() - i,
{
    if i < 0 || i >= xs.len() || i >= ys.len() {
        true
    } else {
        values_equal(xs[i], ys[i]) && elements_equal(xs, ys, i + 1)
    }
}

fn find_key(ys: &Vec<(String, DecodedValue)>, k: &str) -> (r: Option<usize>)
    ensures
        match r {
            Some(j) => j < ys.len() && key_index_from(ys@, k@, 0) == Some(j as int),
            None => key_index_from(ys@, k@, 0) is None,
        },
{
    let mut j: usize = 0;
    while j < ys.len()
        invariant
            j <= ys.len(),
            key_index_from(ys@, k@, 0) == key_index_from(ys@, k@, j as int),
        decreases ys.len() - j,
    {
        if same_text(ys[j].0.as_str(), k) {
            return Some(j);
        }
        j = j + 1;
    }
    None
}

fn tables_eq(a: &DecodedValue, x: &Vec<(String, DecodedValue)>, y: &Vec<(String, DecodedValue)>) -> (r:
    bool)
    requires
        *a == DecodedValue::Table(*x),
    ensures
        r == (x@.len() == y@.len() && entries_found(x@, y@, 0) && entries_matched(x@, y@, 0)),
    decreases a, 1nat,
{
    if x.len() != y.len() {
        return false;
    }
    let mut i: usize = 0;
    while i < x.len()
        invariant
            *a == DecodedValue::Table(*x),
            i <= x.len(),
            x@.len() == y@.len(),
            entries_found(x@, y@, 0) == entries_found(x@, y@, i as int),
        decreases x.len() - i,
    {
        match find_key(y, x[i].0.as_str()) {
            Some(j) => {
                proof {
                    broadcast use vstd::std_specs::vec::group_vec_axioms;

                    assert(decreases_to!(*a => a->Table_0));
                    assert(decreases_to!(a->Table_0 => x@));
                    assert(decreases_to!(x@ => x@[i as int]));
                    assert(decreases_to!(x@[i as int] => x@[i as int].1));
                }
                if !values_eq(&x[i].1, &y[j].1) {
                    return false;
                }
            },
            None => {
                return false;
            },
        }
        i = i + 1;
    }
    let mut i: usize = 0;
    while i < y.len()
        invariant
            *a == DecodedValue::Table(*x),
            i <= y.len(),
            x@.len() == y@.len(),
            entries_found(x@, y@, 0),
            entries_matched(x@, y@, 0) == entries_matched(x@, y@, i as int),
        decreases y.len() - i,
    {
        match find_key(x, y[i].0.as_str()) {
            Some(m) => {
                proof {
                    broadcast use vstd::std_specs::vec::group_vec_axioms;

                    assert(decreases_to!(*a => a->Table_0));
                    assert(decreases_to!(a->Table_0 => x@));
                    assert(decreases_to!(x@ => x@[m as int]));
                    assert(decreases_to!(x@[m as int] => x@[m as int].1));
                }
                if !values_eq(&x[m].1, &y[i].1) {
                    return false;
                }
            },
            None => {
                return false;
            },
        }
        i = i + 1;
    }
    true
}

fn arrays_eq(a: &DecodedValue, x: &Vec<DecodedValue>, y: &Vec<DecodedValue>) -> (r: bool)
    requires
        *a == DecodedValue::Array(*x),
    ensures
        r == (x@.len() == y@.len() && elements_equal(x@, y@, 0)),
    decreases a, 1nat,
{
    if x.len() != y.len() {
        return false;
    }
    let mut i: usize = 0;
    while i < x.len()
        invariant
            *a == DecodedValue::Array(*x),
            i <= x.len(),
            x@.len() == y@.len(),
            elements_equal(x@, y@, 0) == elements_equal(x@, y@, i as int),
        decreases x.len() - i,
    {
        proof {
            broadcast use vstd::std_specs::vec::group_vec_axioms;

            assert(decreases_to!(*a => a->Array_0));
            assert(decreases_to!(a->Array_0 => x@));
            assert(decreases_to!(x@ => x@[i as int]));
        }
        if !values_eq(&x[i], &y[i]) {
            return false;
        }
        i = i + 1;
    }
    true
}

fn values_eq(a: &DecodedValue, b: &DecodedValue) -> (r: bool)
    ensures
        r == values_equal(*a, *b),
    decreases a, 2nat,
{
    match a {
        DecodedValue::Scalar(x) => match b {
            DecodedValue::Scalar(y) => x == y,
            _ => false,
        },
        DecodedValue::Table(x) => match b {
            DecodedValue::Table(y) => tables_eq(a, x, y),
            _ => false,
        },
        DecodedValue::Array(x) => match b {
            DecodedValue::Array(y) => arrays_eq(a, x, y),
            _ => false,
        },
    }
}

impl PartialEq for DecodedValue {
    fn eq(&self, other: &DecodedValue) -> (r: bool) {
        values_eq(self, other)
    }
}

impl vstd::std_specs::cmp::PartialEqSpecImpl for DecodedValue {
    open spec fn obeys_eq_spec() -> bool {
        true
    }

    open spec fn eq_spec(&self, other: &DecodedValue) -> bool {
        values_equal(*self, *other)
    }
}

impl Eq for DecodedValue {

}

/// The tag that names a scalar kind in the canonical encoding.
pub open spec fn tag_of(k: ScalarKind) -> Seq<char> {
    match k {
        ScalarKind::String => "string"@,
        ScalarKind::Integer => "integer"@,
        ScalarKind::Float => "float"@,
        ScalarKind::Bool => "bool"@,
        ScalarKind::Datetime => "datetime"@,
        ScalarKind::DatetimeLocal => "datetime-local"@,
        ScalarKind::DateLocal => "date-local"@,
        ScalarKind::TimeLocal => "time-local"@,
    }
}

pub open spec fn kind_of_tag(t: Seq<char>) -> Option<ScalarKind> {
    if t == "string"@ {
        Some(ScalarKind::String)
    } else if t == "integer"@ {
        Some(ScalarKind::Integer)
    } else if t == "float"@ {
        Some(ScalarKind::Float)
    } else if t == "bool"@ {
        Some(ScalarKind::Bool)
    } else if t == "datetime"@ {
        Some(ScalarKind::Datetime)
    } else if t == "datetime-local"@ {
        Some(ScalarKind::DatetimeLocal)
    } else if t == "date-local"@ {
        Some(ScalarKind::DateLocal)
    } else if t == "time-local"@ {
        Some(ScalarKind::TimeLocal)
    } else {
        None
    }
}

pub open spec fn json_text(j: Json) -> Option<Seq<char>> {
    match j {
        Json::Str(s) => Some(s@),
        _ => None,
    }
}

/// The string held under `name` in a two-member object.
pub open spec fn member_text(members: Seq<(String, Json)>, name: Seq<char>) -> Option<Seq<char>> {
    if members.len() > 0 && members[0].0@ == name {
        json_text(members[0].1)
    } else if members.len() > 1 && members[1].0@ == name {
        json_text(members[1].1)
    } else {
        None
    }
}

/// The tag and text of an object of exactly the members `type` and `value`,
/// both strings, the first a known tag.
pub open spec fn scalar_members(members: Seq<(String, Json)>) -> Option<(ScalarKind, Seq<char>)> {
    if members.len() == 2 && members[0].0@ != members[1].0@ {
        match (member_text(members, "type"@), member_text(members, "value"@)) {
            (Some(t), Some(v)) => match kind_of_tag(t) {
                Some(k) => Some((k, v)),
                None => None,
            },
            _ => None,
        }
    } else {
        None
    }
}

pub open spec fn keys_unique(members: Seq<(String, Json)>) -> bool {
    forall|i: int, k: int| 0 <= i < k < members.len() ==> members[i].0@ != members[k].0@
}

/// Whether a JSON document is a canonical encoding of a value: an object
/// that is a tagged scalar, else an object of encodings under unique keys,
/// else an array of encodings.
pub open spec fn decodable(j: Json) -> bool
    decreases j,
{
    match j {
        Json::Object(members) => scalar_members(members@) is Some || (keys_unique(members@)
            && forall|i: int| 0 <= i < members@.len() ==> decodable(#[trigger] members@[i].1)),
        Json::Array(items) => forall|i: int| 0 <= i < items@.len() ==> decodable(#[trigger] items@[i]),
        _ => false,
    }
}

/// `v` is the value that the canonical encoding `j` stands for.
pub open spec fn encodes(v: DecodedValue, j: Json) -> bool
    decreases j,
{
    match j {
        Json::Object(members) => match scalar_members(members@) {
            Some((k, t)) => match v {
                DecodedValue::Scalar(s) => s.kind() == k && s.text() == t,
                _ => false,
            },
            None => match v {
                DecodedValue::Table(t) => t@.len() == members@.len() && forall|i: int|
                    0 <= i < members@.len() ==> t@[i].0@ == members@[i].0@ && encodes(
                        t@[i].1,
                        #[trigger] members@[i].1,
                    ),
                _ => false,
            },
        },
        Json::Array(items) => match v {
            DecodedValue::Array(xs) => xs@.len() == items@.len() && forall|i: int|
                0 <= i < items@.len() ==> encodes(xs@[i], #[trigger] items@[i]),
            _ => false,
        },
        _ => false,
    }
}

/// The tags of the canonical encoding are distinct, and distinct from the
/// member names.
proof fn lemma_tags()
    ensures
        forall|k: ScalarKind| kind_of_tag(#[trigger] tag_of(k)) == Some(k),
        "type"@ != "value"@,
{
    reveal_strlit("string");
    reveal_strlit("integer");
    reveal_strlit("float");
    reveal_strlit("bool");
    reveal_strlit("datetime");
    reveal_strlit("datetime-local");
    reveal_strlit("date-local");
    reveal_strlit("time-local");
    reveal_strlit("type");
    reveal_strlit("value");
    assert("type"@.len() == 4);
    assert("value"@.len() == 5);
    assert("string"@.len() == 6);
    assert("integer"@.len() == 7);
    assert("float"@.len() == 5);
    assert("bool"@.len() == 4);
    assert("datetime"@.len() == 8);
    assert("datetime-local"@.len() == 14);
    assert("date-local"@.len() == 10);
    assert("time-local"@.len() == 10);
    assert("date-local"@[0] == 'd');
    assert("time-local"@[0] == 't');
    assert(kind_of_tag(tag_of(ScalarKind::String)) == Some(ScalarKind::String));
    assert("integer"@ != "string"@);
    assert(kind_of_tag(tag_of(ScalarKind::Integer)) == Some(ScalarKind::Integer));
    assert("float"@ != "string"@ && "float"@ != "integer"@);
    assert(kind_of_tag(tag_of(ScalarKind::Float)) == Some(ScalarKind::Float));
    assert("bool"@ != "string"@ && "bool"@ != "integer"@ && "bool"@ != "float"@);
    assert(kind_of_tag(tag_of(ScalarKind::Bool)) == Some(ScalarKind::Bool));
    assert("datetime"@ != "string"@ && "datetime"@ != "integer"@ && "datetime"@ != "float"@
        && "datetime"@ != "bool"@);
    assert(kind_of_tag(tag_of(ScalarKind::Datetime)) == Some(ScalarKind::Datetime));
    assert("datetime-local"@ != "string"@ && "datetime-local"@ != "integer"@ && "datetime-local"@
        != "float"@ && "datetime-local"@ != "bool"@ && "datetime-local"@ != "datetime"@);
    assert(kind_of_tag(tag_of(ScalarKind::DatetimeLocal)) == Some(ScalarKind::DatetimeLocal));
    assert("date-local"@ != "string"@ && "date-local"@ != "integer"@ && "date-local"@ != "float"@
        && "date-local"@ != "bool"@ && "date-local"@ != "datetime"@ && "date-local"@
        != "datetime-local"@);
    assert(kind_of_tag(tag_of(ScalarKind::DateLocal)) == Some(ScalarKind::DateLocal));
    assert("time-local"@ != "string"@ && "time-local"@ != "integer"@ && "time-local"@ != "float"@
        && "time-local"@ != "bool"@ && "time-local"@ != "datetime"@ && "time-local"@
        != "datetime-local"@ && "time-local"@ != "date-local"@);
    assert(kind_of_tag(tag_of(ScalarKind::TimeLocal)) == Some(ScalarKind::TimeLocal));
    assert forall|k: ScalarKind| kind_of_tag(#[trigger] tag_of(k)) == Some(k) by {
        match k {
            ScalarKind::String => {},
            ScalarKind::Integer => {},
            ScalarKind::Float => {},
            ScalarKind::Bool => {},
            ScalarKind::Datetime => {},
            ScalarKind::DatetimeLocal => {},
            ScalarKind::DateLocal => {},
            ScalarKind::TimeLocal => {},
        }
    }
}

fn kind_of_tag_exec(t: &str) -> (r: Option<ScalarKind>)
    ensures
        r == kind_of_tag(t@),
{
    if same_text(t, "string") {
        Some(ScalarKind::String)
    } else if same_text(t, "integer") {
        Some(ScalarKind::Integer)
    } else if same_text(t, "float") {
        Some(ScalarKind::Float)
    } else if same_text(t, "bool") {
        Some(ScalarKind::Bool)
    } else if same_text(t, "datetime") {
        Some(ScalarKind::Datetime)
    } else if same_text(t, "datetime-local") {
        Some(ScalarKind::DatetimeLocal)
    } else if same_text(t, "date-local") {
        Some(ScalarKind::DateLocal)
    } else if same_text(t, "time-local") {
        Some(ScalarKind::TimeLocal)
    } else {
        None
    }
}

fn tag_exec(k: ScalarKind) -> (r: String)
    ensures
        r@ == tag_of(k),
{
    match k {
        ScalarKind::String => String::from_str("string"),
        ScalarKind::Integer => String::from_str("integer"),
        ScalarKind::Float => String::from_str("float"),
        ScalarKind::Bool => String::from_str("bool"),
        ScalarKind::Datetime => String::from_str("datetime"),
        ScalarKind::DatetimeLocal => String::from_str("datetime-local"),
        ScalarKind::DateLocal => String::from_str("date-local"),
        ScalarKind::TimeLocal => String::from_str("time-local"),
    }
}

/// The scalar of a given tag and text.
pub fn scalar_of(k: ScalarKind, text: String) -> (r: DecodedScalar)
    ensures
        r.kind() == k,
        r.text() == text@,
{
    match k {
        ScalarKind::String => DecodedScalar::String(text),
        ScalarKind::Integer => DecodedScalar::Integer(text),
        ScalarKind::Float => DecodedScalar::Float(text),
        ScalarKind::Bool => DecodedScalar::Bool(text),
        ScalarKind::Datetime => DecodedScalar::Datetime(text),
        ScalarKind::DatetimeLocal => DecodedScalar::DatetimeLocal(text),
        ScalarKind::DateLocal => DecodedScalar::DateLocal(text),
        ScalarKind::TimeLocal => DecodedScalar::TimeLocal(text),
    }
}

fn member_text_exec<'a>(members: &'a Vec<(String, Json)>, name: &str) -> (r: Option<&'a String>)
    ensures
        match r {
            Some(t) => member_text(members@, name@) == Some(t@),
            None => member_text(members@, name@) is None,
        },
{
    if members.len() > 0 && same_text(members[0].0.as_str(), name) {
        match &members[0].1 {
            Json::Str(t) => Some(t),
            _ => None,
        }
    } else if members.len() > 1 && same_text(members[1].0.as_str(), name) {
        match &members[1].1 {
            Json::Str(t) => Some(t),
            _ => None,
        }
    } else {
        None
    }
}

fn scalar_members_exec(members: &Vec<(String, Json)>) -> (r: Option<DecodedScalar>)
    ensures
        match r {
            Some(sc) => scalar_members(members@) == Some((sc.kind(), sc.text())),
            None => scalar_members(members@) is None,
        },
{
    if members.len() == 2 && !same_text(members[0].0.as_str(), members[1].0.as_str()) {
        match (member_text_exec(members, "type"), member_text_exec(members, "value")) {
            (Some(t), Some(v)) => match kind_of_tag_exec(t.as_str()) {
                Some(k) => Some(scalar_of(k, v.clone())),
                None => None,
            },
            _ => None,
        }
    } else {
        None
    }
}

fn unique_keys(members: &Vec<(String, Json)>) -> (r: bool)
    ensures
        r == keys_unique(members@),
{
    let mut k: usize = 0;
    while k < members.len()
        invariant
            k <= members.len(),
            forall|a: int, b: int| 0 <= a < b < k ==> members@[a].0@ != members@[b].0@,
        decreases members.len() - k,
    {
        let mut i: usize = 0;
        while i < k
            invariant
                k < members.len(),
                i <= k,
                forall|a: int| 0 <= a < i ==> members@[a].0@ != members@[k as int].0@,
            decreases k - i,
        {
            if same_text(members[i].0.as_str(), members[k].0.as_str()) {
                return false;
            }
            i = i + 1;
        }
        k = k + 1;
    }
    true
}

fn corpus_error(message: &str) -> (r: Error)
    ensures
        r.spec_kind() == ErrorKind::Corpus,
{
    Error::with_kind(ErrorKind::Corpus, message.to_owned())
}

/// The canonical encoding of a value: a scalar as the members `type` and
/// `value` in that order, a table as its entries in order, an array as its
/// elements in order.
pub open spec fn canonical_json(v: DecodedValue) -> JsonModel
    decreases v,
{
    match v {
        DecodedValue::Scalar(s) => JsonModel::Object(
            seq![("type"@, JsonModel::Str(tag_of(s.kind()))), ("value"@, JsonModel::Str(s.text()))],
        ),
        DecodedValue::Table(t) => JsonModel::Object(
            Seq::new(
                t@.len(),
                |i: int|
                    if 0 <= i < t@.len() {
                        (t@[i].0@, canonical_json(t@[i].1))
                    } else {
                        (Seq::empty(), JsonModel::Null)
                    },
            ),
        ),
        DecodedValue::Array(xs) => JsonModel::Array(
            Seq::new(
                xs@.len(),
                |i: int|
                    if 0 <= i < xs@.len() {
                        canonical_json(xs@[i])
                    } else {
                        JsonModel::Null
                    },
            ),
        ),
    }
}

/// Reads the value that a canonical encoding stands for.
pub fn value_from_json(j: &Json) -> (r: Result<DecodedValue, Error>)
    ensures
        r is Ok <==> decodable(*j),
        r is Ok ==> encodes(r->Ok_0, *j),
        r is Err ==> r->Err_0.spec_kind() == ErrorKind::Corpus,
    decreases j,
{
    match j {
        Json::Object(members) => {
            if let Some(sc) = scalar_members_exec(members) {
                return Ok(DecodedValue::Scalar(sc));
            }
            if !unique_keys(members) {
                return Err(corpus_error("a table of the canonical encoding repeats a key"));
            }
            let mut out: Vec<(String, DecodedValue)> = Vec::new();
            let mut i: usize = 0;
            while i < members.len()
                invariant
                    *j == Json::Object(*members),
                    scalar_members(members@) is None,
                    keys_unique(members@),
                    i <= members.len(),
                    out@.len() == i,
                    forall|k: int| 0 <= k < i ==> #[trigger] out@[k].0@ == members@[k].0@,
                    forall|k: int| 0 <= k < i ==> encodes(#[trigger] out@[k].1, members@[k].1),
                    forall|k: int| 0 <= k < i ==> decodable(#[trigger] members@[k].1),
                decreases members.len() - i,
            {
                proof {
                    broadcast use vstd::std_specs::vec::group_vec_axioms;

                    assert(decreases_to!(*j => j->Object_0));
                    assert(decreases_to!(j->Object_0 => members@));
                    assert(decreases_to!(members@ => members@[i as int]));
                    assert(decreases_to!(members@[i as int] => members@[i as int].1));
                }
                let child = value_from_json(&members[i].1);
                match child {
                    Ok(v) => {
                        let key = members[i].0.clone();
                        let ghost before = out@;
                        out.push((key, v));
                        assert forall|k: int| 0 <= k < i + 1 implies #[trigger] out@[k].0@
                            == members@[k].0@ by {
                            if k < i {
                                assert(out@[k] == before[k]);
                                assert(before[k].0@ == members@[k].0@);
                            }
                        }
                    },
                    Err(e) => {
                        return Err(e);
                    },
                }
                i = i + 1;
            }
            Ok(DecodedValue::Table(out))
        },
        Json::Array(items) => {
            let mut out: Vec<DecodedValue> = Vec::new();
            let mut i: usize = 0;
            while i < items.len()
                invariant
                    *j == Json::Array(*items),
                    i <= items.len(),
                    out@.len() == i,
                    forall|k: int| 0 <= k < i ==> encodes(out@[k], #[trigger] items@[k]),
                    forall|k: int| 0 <= k < i ==> decodable(#[trigger] items@[k]),
                decreases items.len() - i,
            {
                proof {
                    broadcast use vstd::std_specs::vec::group_vec_axioms;

                    assert(decreases_to!(*j => j->Array_0));
                    assert(decreases_to!(j->Array_0 => items@));
                    assert(decreases_to!(items@ => items@[i as int]));
                }
                match value_from_json(&items[i]) {
                    Ok(v) => {
                        out.push(v);
                    },
                    Err(e) => {
                        return Err(e);
                    },
                }
                i = i + 1;
            }
            Ok(DecodedValue::Array(out))
        },
        _ => Err(corpus_error("expected a tagged scalar, a table or an array")),
    }
}

/// Writes the canonical encoding of a value.
pub fn value_to_json(v: &DecodedValue) -> (r: Json)
    ensures
        encodes(*v, r),
        r.model() == canonical_json(*v),
        !(r is Str),
    decreases v,
{
    match v {
        DecodedValue::Scalar(sc) => {
            let tag = tag_exec(sc.scalar_kind());
            let text = sc.as_str().to_owned();
            let mut members: Vec<(String, Json)> = Vec::new();
            members.push((String::from_str("type"), Json::Str(tag)));
            members.push((String::from_str("value"), Json::Str(text)));
            proof {
                lemma_tags();
                assert(kind_of_tag(tag_of(sc.kind())) == Some(sc.kind()));
                assert(members@[0].0@ == "type"@);
                assert(members@[1].0@ == "value"@);
                assert(member_text(members@, "type"@) == Some(tag_of(sc.kind())));
                assert(member_text(members@, "value"@) == Some(sc.text()));
                assert(scalar_members(members@) == Some((sc.kind(), sc.text())));
                assert(members@[0].1.model() == JsonModel::Str(tag_of(sc.kind())));
                assert(members@[1].1.model() == JsonModel::Str(sc.text()));
                assert(Json::Object(members).model()->Object_0 =~= canonical_json(*v)->Object_0);
            }
            Json::Object(members)
        },
        DecodedValue::Table(t) => {
            let mut members: Vec<(String, Json)> = Vec::new();
            let mut i: usize = 0;
            while i < t.len()
                invariant
                    *v == DecodedValue::Table(*t),
                    i <= t.len(),
                    members@.len() == i,
                    forall|k: int| 0 <= k < i ==> #[trigger] members@[k].0@ == t@[k].0@,
                    forall|k: int| 0 <= k < i ==> encodes(t@[k].1, #[trigger] members@[k].1),
                    forall|k: int| 0 <= k < i ==> !(#[trigger] members@[k].1 is Str),
                    forall|k: int| 0 <= k < i ==> (#[trigger] members@[k].1).model() == canonical_json(t@[k].1),
                decreases t.len() - i,
            {
                proof {
                    broadcast use vstd::std_specs::vec::group_vec_axioms;

                    assert(decreases_to!(*v => v->Table_0));
                    assert(decreases_to!(v->Table_0 => t@));
                    assert(decreases_to!(t@ => t@[i as int]));
                    assert(decreases_to!(t@[i as int] => t@[i as int].1));
                }
                let child = value_to_json(&t[i].1);
                let ghost before = members@;
                members.push((t[i].0.clone(), child));
                assert forall|k: int| 0 <= k < i + 1 implies #[trigger] members@[k].0@ == t@[k].0@ by {
                    if k < i {
                        assert(members@[k] == before[k]);
                        assert(before[k].0@ == t@[k].0@);
                    }
                }
                i = i + 1;
            }
            assert(scalar_members(members@) is None);
            assert(Json::Object(members).model()->Object_0 =~= canonical_json(*v)->Object_0);
            Json::Object(members)
        },
        DecodedValue::Array(xs) => {
            let mut items: Vec<Json> = Vec::new();
            let mut i: usize = 0;
            while i < xs.len()
                invariant
                    *v == DecodedValue::Array(*xs),
                    i <= xs.len(),
                    items@.len() == i,
                    forall|k: int| 0 <= k < i ==> encodes(xs@[k], #[trigger] items@[k]),
                    forall|k: int| 0 <= k < i ==> (#[trigger] items@[k]).model() == canonical_json(xs@[k]),
                decreases xs.len() - i,
            {
                proof {
                    broadcast use vstd::std_specs::vec::group_vec_axioms;

                    assert(decreases_to!(*v => v->Array_0));
                    assert(decreases_to!(v->Array_0 => xs@));
                    assert(decreases_to!(xs@ => xs@[i as int]));
                }
                let child = value_to_json(&xs[i]);
                items.push(child);
                i = i + 1;
            }
            assert(Json::Array(items).model()->Array_0 =~= canonical_json(*v)->Array_0);
            Json::Array(items)
        },
    }
}

/// The message of bytes that are no canonical encoding: the reason and the
/// raw text.
pub open spec fn parse_failure_message(bytes: Seq<u8>) -> Seq<char> {
    "failed decoding: "@ + (if json_of(bytes) is None {
        "not JSON"@
    } else {
        "not a canonical encoding"@
    }) + "\n```json\n"@ + lossy_text_of(bytes) + "\n```"@
}

fn parse_failure(reason: &str, bytes: &[u8]) -> (r: Error)
    ensures
        r.spec_kind() == ErrorKind::Corpus,
        r.spec_message() == "failed decoding: "@ + reason@ + "\n```json\n"@ + lossy_text_of(bytes@)
            + "\n```"@,
{
    let mut message = String::from_str("failed decoding: ");
    message.append(reason);
    message.append("\n```json\n");
    message.append(lossy_text(bytes).as_str());
    message.append("\n```");
    Error::with_kind(ErrorKind::Corpus, message)
}

impl DecodedValue {
    /// Reads a value from its canonical encoding.
    pub fn from_slice(v: &[u8]) -> (r: Result<DecodedValue, Error>)
        ensures
            r is Ok <==> (json_of(v@) is Some && decodable(json_of(v@)->0)),
            r is Ok ==> encodes(r->Ok_0, json_of(v@)->0),
            r is Err ==> r->Err_0.spec_kind() == ErrorKind::Corpus && r->Err_0.spec_message()
                == parse_failure_message(v@),
    {
        match parse_json(v) {
            Some(j) => match value_from_json(&j) {
                Ok(value) => Ok(value),
                Err(_) => Err(parse_failure("not a canonical encoding", v)),
            },
            None => Err(parse_failure("not JSON", v)),
        }
    }

    /// Writes the canonical encoding of the value, pretty-printed.
    pub fn to_string_pretty(&self) -> (r: Result<String, Error>)
        ensures
            r is Ok,
            r->Ok_0@ == pretty_json_of(canonical_json(*self)),
    {
        Ok(self.pretty())
    }

    /// The canonical encoding of the value, pretty-printed.
    pub fn pretty(&self) -> (r: String)
        ensures
            r@ == pretty_json_of(canonical_json(*self)),
    {
        let j = value_to_json(self);
        pretty_json(&j)
    }
}

/// `key_index_from` finds the first entry at or after `j` with the key.
proof fn lemma_key_index(ys: Seq<(String, DecodedValue)>, k: Seq<char>, j: int)
    requires
        0 <= j,
    ensures
        match key_index_from(ys, k, j) {
            Some(m) => j <= m < ys.len() && ys[m].0@ == k && forall|t: int|
                j <= t < m ==> ys[t].0@ != k,
            None => forall|t: int| j <= t < ys.len() ==> ys[t].0@ != k,
        },
    decreases ys.len() - j,
{
    if j < ys.len() {
        lemma_key_index(ys, k, j + 1);
    }
}

/// The entry of `xs` at `k` has its key in `ys`, with an equal value under
/// the first entry of that key.
pub open spec fn entry_found(
    xs: Seq<(String, DecodedValue)>,
    ys: Seq<(String, DecodedValue)>,
    k: int,
) -> bool {
    match key_index_from(ys, xs[k].0@, 0) {
        Some(m) => values_equal(xs[k].1, ys[m].1),
        None => false,
    }
}

proof fn lemma_entries_found(xs: Seq<(String, DecodedValue)>, ys: Seq<(String, DecodedValue)>, i: int)
    requires
        0 <= i <= xs.len(),
    ensures
        entries_found(xs, ys, i) <==> forall|k: int| i <= k < xs.len() ==> #[trigger] entry_found(xs, ys, k),
    decreases xs.len() - i,
{
    if i < xs.len() {
        lemma_entries_found(xs, ys, i + 1);
        assert(entries_found(xs, ys, i) == (entry_found(xs, ys, i) && entries_found(xs, ys, i + 1)));
        if entries_found(xs, ys, i) {
            assert forall|k: int| i <= k < xs.len() implies #[trigger] entry_found(xs, ys, k) by {
                if k > i {
                    assert(entry_found(xs, ys, k));
                }
            }
        }
    }
}

proof fn lemma_elements_equal(xs: Seq<DecodedValue>, ys: Seq<DecodedValue>, i: int)
    requires
        0 <= i <= xs.len(),
        xs.len() == ys.len(),
    ensures
        elements_equal(xs, ys, i) <==> forall|k: int| i <= k < xs.len() ==> values_equal(#[trigger] xs[k], ys[k]),
    decreases xs.len() - i,
{
    if i < xs.len() {
        lemma_elements_equal(xs, ys, i + 1);
        if elements_equal(xs, ys, i) {
            assert forall|k: int| i <= k < xs.len() implies values_equal(#[trigger] xs[k], ys[k]) by {
                if k > i {
                    assert(values_equal(xs[k], ys[k]));
                }
            }
        }
    }
}

/// Table keys are unique.
pub open spec fn table_keys_unique(t: Seq<(String, DecodedValue)>) -> bool {
    forall|i: int, k: int| 0 <= i < k < t.len() ==> t[i].0@ != t[k].0@
}

/// Some entry of `y` has the key of the entry of `x` at `i` and an equal
/// value.
pub open spec fn has_equal_entry(
    x: Seq<(String, DecodedValue)>,
    y: Seq<(String, DecodedValue)>,
    i: int,
) -> bool {
    exists|j: int| 0 <= j < y.len() && y[j].0@ == x[i].0@ && values_equal(x[i].1, y[j].1)
}

/// Some entry of `x` has the key of the entry of `y` at `j` and a value
/// equal to it.
pub open spec fn has_matching_entry(
    x: Seq<(String, DecodedValue)>,
    y: Seq<(String, DecodedValue)>,
    j: int,
) -> bool {
    exists|i: int| 0 <= i < x.len() && x[i].0@ == y[j].0@ && values_equal(x[i].1, y[j].1)
}

/// The entry of `ys` at `k` has its key in `xs`, with an equal value under
/// the first entry of that key.
pub open spec fn entry_matched(
    xs: Seq<(String, DecodedValue)>,
    ys: Seq<(String, DecodedValue)>,
    k: int,
) -> bool {
    match key_index_from(xs, ys[k].0@, 0) {
        Some(m) => 0 <= m < xs.len() && values_equal(xs[m].1, ys[k].1),
        None => false,
    }
}

proof fn lemma_entries_matched(xs: Seq<(String, DecodedValue)>, ys: Seq<(String, DecodedValue)>, i: int)
    requires
        0 <= i <= ys.len(),
    ensures
        entries_matched(xs, ys, i) <==> forall|k: int| i <= k < ys.len() ==> #[trigger] entry_matched(xs, ys, k),
    decreases ys.len() - i,
{
    if i < ys.len() {
        lemma_entries_matched(xs, ys, i + 1);
        assert(entries_matched(xs, ys, i) == (entry_matched(xs, ys, i) && entries_matched(xs, ys, i + 1)));
        if entries_matched(xs, ys, i) {
            assert forall|k: int| i <= k < ys.len() implies #[trigger] entry_matched(xs, ys, k) by {
                if k > i {
                    assert(entry_matched(xs, ys, k));
                }
            }
        }
    }
}

/// Table equality does not depend on the order of the entries: two tables
/// with unique keys are equal exactly when they have as many entries and
/// every entry of each has an entry of the other with the same key and an
/// equal value; that is, the same keys, with equal values under each.
pub proof fn table_equality_ignores_order(x: Vec<(String, DecodedValue)>, y: Vec<(String, DecodedValue)>)
    requires
        table_keys_unique(x@),
        table_keys_unique(y@),
    ensures
        values_equal(DecodedValue::Table(x), DecodedValue::Table(y)) <==> (x@.len() == y@.len()
            && (forall|i: int| 0 <= i < x@.len() ==> #[trigger] has_equal_entry(x@, y@, i))
            && (forall|j: int| 0 <= j < y@.len() ==> #[trigger] has_matching_entry(x@, y@, j))),
{
    lemma_entries_found(x@, y@, 0);
    lemma_entries_matched(x@, y@, 0);
    assert forall|i: int| 0 <= i < x@.len() implies (#[trigger] entry_found(x@, y@, i)
        <==> has_equal_entry(x@, y@, i)) by {
        lemma_key_index(y@, x@[i].0@, 0);
        if has_equal_entry(x@, y@, i) {
            let j = choose|j: int|
                0 <= j < y@.len() && y@[j].0@ == x@[i].0@ && values_equal(x@[i].1, y@[j].1);
            let m = key_index_from(y@, x@[i].0@, 0)->0;
            if m != j {
                assert(y@[m].0@ == y@[j].0@);
            }
        }
        if entry_found(x@, y@, i) {
            let m = key_index_from(y@, x@[i].0@, 0)->0;
            assert(0 <= m < y@.len() && y@[m].0@ == x@[i].0@ && values_equal(x@[i].1, y@[m].1));
        }
    }
    assert forall|j: int| 0 <= j < y@.len() implies (#[trigger] entry_matched(x@, y@, j)
        <==> has_matching_entry(x@, y@, j)) by {
        lemma_key_index(x@, y@[j].0@, 0);
        if has_matching_entry(x@, y@, j) {
            let i = choose|i: int|
                0 <= i < x@.len() && x@[i].0@ == y@[j].0@ && values_equal(x@[i].1, y@[j].1);
            let m = key_index_from(x@, y@[j].0@, 0)->0;
            if m != i {
                assert(x@[m].0@ == x@[i].0@);
            }
        }
        if entry_matched(x@, y@, j) {
            let m = key_index_from(x@, y@[j].0@, 0)->0;
            assert(0 <= m < x@.len() && x@[m].0@ == y@[j].0@ && values_equal(x@[m].1, y@[j].1));
        }
    }
    if x@.len() == y@.len() && (forall|i: int|
        0 <= i < x@.len() ==> #[trigger] has_equal_entry(x@, y@, i)) && (forall|j: int|
        0 <= j < y@.len() ==> #[trigger] has_matching_entry(x@, y@, j)) {
        assert forall|k: int| 0 <= k < x@.len() implies #[trigger] entry_found(x@, y@, k) by {
            assert(has_equal_entry(x@, y@, k));
        }
        assert forall|k: int| 0 <= k < y@.len() implies #[trigger] entry_matched(x@, y@, k) by {
            assert(has_matching_entry(x@, y@, k));
        }
    }
    if values_equal(DecodedValue::Table(x), DecodedValue::Table(y)) {
        assert forall|i: int| 0 <= i < x@.len() implies #[trigger] has_equal_entry(x@, y@, i) by {
            assert(entry_found(x@, y@, i));
        }
        assert forall|j: int| 0 <= j < y@.len() implies #[trigger] has_matching_entry(x@, y@, j) by {
            assert(entry_matched(x@, y@, j));
        }
    }
}

/// Array equality is element by element, in order: two arrays are equal
/// exactly when they have the same length and the elements at each position
/// are equal.
pub proof fn array_equality_is_positional(x: Vec<DecodedValue>, y: Vec<DecodedValue>)
    ensures
        values_equal(DecodedValue::Array(x), DecodedValue::Array(y)) <==> (x@.len() == y@.len()
            && forall|i: int| 0 <= i < x@.len() ==> values_equal(#[trigger] x@[i], y@[i])),
{
    if x@.len() == y@.len() {
        lemma_elements_equal(x@, y@, 0);
    }
}

/// Whether every scalar of a value is readable under its tag.
pub open spec fn value_readable(v: DecodedValue) -> bool
    decreases v,
{
    match v {
        DecodedValue::Scalar(s) => scalar_readable(s),
        DecodedValue::Table(t) => forall|i: int| 0 <= i < t@.len() ==> value_readable(#[trigger] t@[i].1),
        DecodedValue::Array(xs) => forall|i: int| 0 <= i < xs@.len() ==> value_readable(#[trigger] xs@[i]),
    }
}

/// Checks that every scalar of a value is readable under its tag.
pub fn readable(v: &DecodedValue) -> (r: bool)
    ensures
        r == value_readable(*v),
    decreases v,
{
    match v {
        DecodedValue::Scalar(s) => s.readable(),
        DecodedValue::Table(t) => {
            let mut i: usize = 0;
            while i < t.len()
                invariant
                    *v == DecodedValue::Table(*t),
                    i <= t.len(),
                    forall|k: int| 0 <= k < i ==> value_readable(#[trigger] t@[k].1),
                decreases t.len() - i,
            {
                proof {
                    broadcast use vstd::std_specs::vec::group_vec_axioms;

                    assert(decreases_to!(*v => v->Table_0));
                    assert(decreases_to!(v->Table_0 => t@));
                    assert(decreases_to!(t@ => t@[i as int]));
                    assert(decreases_to!(t@[i as int] => t@[i as int].1));
                }
                if !readable(&t[i].1) {
                    return false;
                }
                i = i + 1;
            }
            true
        },
        DecodedValue::Array(xs) => {
            let mut i: usize = 0;
            while i < xs.len()
                invariant
                    *v == DecodedValue::Array(*xs),
                    i <= xs.len(),
                    forall|k: int| 0 <= k < i ==> value_readable(#[trigger] xs@[k]),
                decreases xs.len() - i,
            {
                proof {
                    broadcast use vstd::std_specs::vec::group_vec_axioms;

                    assert(decreases_to!(*v => v->Array_0));
                    assert(decreases_to!(v->Array_0 => xs@));
                    assert(decreases_to!(xs@ => xs@[i as int]));
                }
                if !readable(&xs[i]) {
                    return false;
                }
                i = i + 1;
            }
            true
        },
    }
}

} // verus!
