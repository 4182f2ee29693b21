use vstd::prelude::*;

verus! {

/// A JSON document as plain values: the form in which the library reads
/// and writes the canonical encoding.
#[derive(Debug)]
pub enum Json {
    Null,
    Bool(bool),
    /// A number, as serde_json prints it.
    Number(String),
    Str(String),
    Array(Vec<Json>),
    /// The members of an object, in serde_json's order.
    Object(Vec<(String, Json)>),
}

/// A JSON document as mathematical values.
pub enum JsonModel {
    Null,
    Bool(bool),
    Number(Seq<char>),
    Str(Seq<char>),
    Array(Seq<JsonModel>),
    Object(Seq<(Seq<char>, JsonModel)>),
}

impl Json {
    /// The document, with its strings as character sequences.
    pub open spec fn model(self) -> JsonModel
        decreases self,
    {
        match self {
            Json::Null => JsonModel::Null,
            Json::Bool(b) => JsonModel::Bool(b),
            Json::Number(n) => JsonModel::Number(n@),
            Json::Str(t) => JsonModel::Str(t@),
            Json::Array(items) => JsonModel::Array(
                Seq::new(
                    items@.len(),
                    |i: int|
                        if 0 <= i < items@.len() {
                            items@[i].model()
                        } else {
                            JsonModel::Null
                        },
                ),
            ),
            Json::Object(members) => JsonModel::Object(
                Seq::new(
                    members@.len(),
                    |i: int|
                        if 0 <= i < members@.len() {
                            (members@[i].0@, members@[i].1.model())
                        } else {
                            (Seq::empty(), JsonModel::Null)
                        },
                ),
            ),
        }
    }
}

#[verifier::external_type_specification]
#[verifier::external_body]
pub struct ExJsonValue(serde_json::Value);

/// What serde_json reads from the bytes: `None` where they are not JSON.
pub uninterp spec fn json_of(bytes: Seq<u8>) -> Option<Json>;

/// What serde_json's pretty printer writes for a document.
pub uninterp spec fn pretty_json_of(j: JsonModel) -> Seq<char>;

/// What std's lossy UTF-8 decoding makes of bytes.
pub uninterp spec fn lossy_text_of(bytes: Seq<u8>) -> Seq<char>;

/// Relies on `serde_json::from_slice` into `serde_json::Value`: the result
/// depends on the bytes alone.
#[verifier::external_body]
pub(crate) fn parse_json(bytes: &[u8]) -> (r: Option<Json>)
    ensures
        r == json_of(bytes@),
{
    serde_json::from_slice::<serde_json::Value>(bytes).ok().map(|v| json_from_serde(&v))
}

/// Carries a `serde_json::Value` over into the library's form, member by
/// member.
#[verifier::external_body]
fn json_from_serde(v: &serde_json::Value) -> Json {
    match v {
        serde_json::Value::Null => Json::Null,
        serde_json::Value::Bool(b) => Json::Bool(*b),
        serde_json::Value::Number(n) => Json::Number(n.to_string()),
        serde_json::Value::String(s) => Json::Str(s.clone()),
        serde_json::Value::Array(a) => Json::Array(a.iter().map(json_from_serde).collect()),
        serde_json::Value::Object(m) => Json::Object(
            m.iter().map(|(k, v)| (k.clone(), json_from_serde(v))).collect(),
        ),
    }
}

/// Carries a document of the library's form over into a
/// `serde_json::Value`, member by member.
#[verifier::external_body]
fn json_to_serde(j: &Json) -> serde_json::Value {
    match j {
        Json::Null => serde_json::Value::Null,
        Json::Bool(b) => serde_json::Value::Bool(*b),
        Json::Number(n) => n.parse().map(serde_json::Value::Number).unwrap_or_default(),
        Json::Str(s) => serde_json::Value::String(s.clone()),
        Json::Array(a) => serde_json::Value::Array(a.iter().map(json_to_serde).collect()),
        Json::Object(m) => serde_json::Value::Object(
            m.iter().map(|(k, v)| (k.clone(), json_to_serde(v))).collect(),
        ),
    }
}

/// Relies on `serde_json::to_string_pretty` of a `serde_json::Value`, which
/// cannot fail: its object keys are strings. The text depends on the
/// document alone.
#[verifier::external_body]
pub(crate) fn pretty_json(j: &Json) -> (r: String)
    ensures
        r@ == pretty_json_of(j.model()),
{
    serde_json::to_string_pretty(&json_to_serde(j)).unwrap_or_default()
}

/// Relies on std's `String::from_utf8_lossy`: invalid sequences become the
/// replacement character; the text depends on the bytes alone.
#[verifier::external_body]
pub(crate) fn lossy_text(bytes: &[u8]) -> (r: String)
    ensures
        r@ == lossy_text_of(bytes@),
{
    String::from_utf8_lossy(bytes).into_owned()
}

} // verus!
