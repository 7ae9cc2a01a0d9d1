//! Values that are exchanged as JSON.

use crate::text;
use vstd::prelude::*;

verus! {

/// A value.
pub enum Json {
    Null,
    Bool(bool),
    Number(u32),
    Text(String),
    Array(Vec<Json>),
    Object(Vec<JsonEntry>),
}

/// A member of an object.
pub struct JsonEntry {
    pub key: String,
    pub value: Json,
}

/// The model of a value.
#[verifier::ext_equal]
pub enum JsonModel {
    Null,
    Bool(bool),
    Number(u32),
    Text(Seq<char>),
    Array(Seq<JsonModel>),
    Object(Seq<(Seq<char>, JsonModel)>),
}

impl Json {
    /// The model of the value.
    pub open spec fn model(self) -> JsonModel
        decreases self,
    {
        match self {
            Json::Null => JsonModel::Null,
            Json::Bool(b) => JsonModel::Bool(b),
            Json::Number(n) => JsonModel::Number(n),
            Json::Text(s) => JsonModel::Text(s@),
            Json::Array(items) => JsonModel::Array(
                Seq::new(
                    items@.len(),
                    |i: int|
                        if 0 <= i < items@.len() {
                            items@[i].model()
                        } else {
                            JsonModel::Null
                        },
                ),
            ),
            Json::Object(entries) => JsonModel::Object(
                Seq::new(
                    entries@.len(),
                    |i: int|
                        if 0 <= i < entries@.len() {
                            (entries@[i].key@, entries@[i].value.model())
                        } else {
                            (seq![], JsonModel::Null)
                        },
                ),
            ),
        }
    }
}

/// The members of an object.
pub open spec fn members(entries: Seq<JsonEntry>) -> Seq<(Seq<char>, JsonModel)> {
    entries.map_values(|e: JsonEntry| (e.key@, e.value.model()))
}

/// The items of an array.
pub open spec fn items(values: Seq<Json>) -> Seq<JsonModel> {
    values.map_values(|v: Json| v.model())
}

/// An object with the given members.
pub fn object(entries: Vec<JsonEntry>) -> (r: Json)
    ensures
        r.model() == JsonModel::Object(members(entries@)),
{
    let r = Json::Object(entries);
    proof {
        let m = r.model();
        assert(m->Object_0 =~= members(entries@));
    }
    r
}

/// An array with the given items.
pub fn array(values: Vec<Json>) -> (r: Json)
    ensures
        r.model() == JsonModel::Array(items(values@)),
{
    let r = Json::Array(values);
    proof {
        let m = r.model();
        assert(m->Array_0 =~= items(values@));
    }
    r
}

/// The value of an optional text: the text or nothing.
pub open spec fn optional_text(s: Option<Seq<char>>) -> JsonModel {
    match s {
        Some(s) => JsonModel::Text(s),
        None => JsonModel::Null,
    }
}

/// The value of an optional text: the text or nothing.
pub fn text_or_null(s: &Option<String>) -> (r: Json)
    ensures
        r.model() == optional_text(text::optional_view(*s)),
{
    match s {
        Some(s) => Json::Text(s.clone()),
        None => Json::Null,
    }
}

/// `serde_json::Value` of the crate `serde_json`: a value as that crate holds it.
#[verifier::external_type_specification]
#[verifier::external_body]
pub struct ExJsonValue(serde_json::Value);

/// A value as a `serde_json::Value`, variant for variant. Nothing is claimed of it; it converts
/// what `json_to_string` prints.
#[verifier::external_body]
fn json_value(value: &Json) -> (r: serde_json::Value) {
    match value {
        Json::Null => serde_json::Value::Null,
        Json::Bool(b) => serde_json::Value::Bool(*b),
        Json::Number(n) => serde_json::Value::from(*n),
        Json::Text(s) => serde_json::Value::String(s.clone()),
        Json::Array(items) => serde_json::Value::Array(items.iter().map(json_value).collect()),
        Json::Object(entries) => serde_json::Value::Object(
            entries.iter().map(|e| (e.key.clone(), json_value(&e.value))).collect(),
        ),
    }
}

/// What a `serde_json::Value` is printed as.
pub uninterp spec fn json_text(value: JsonModel) -> Seq<char>;

/// `serde_json::Value::to_string` of the crate `serde_json`: a value as JSON. What is printed
/// depends on the value alone and is given the name `json_text`; how values are written is left
/// to the crate.
#[verifier::external_body]
pub(crate) fn json_to_string(value: &Json) -> (r: String)
    ensures
        r@ == json_text(value.model()),
{
    json_value(value).to_string()
}

/// The texts that `serde_json::from_str` reads from an array of texts; none where the JSON is
/// anything else.
pub uninterp spec fn json_strings(json: Seq<char>) -> Option<Seq<Seq<char>>>;

/// `serde_json::from_str` of the crate `serde_json`, reading a `Vec<String>`: the texts of an
/// array, or none where it reports an error. What it reads depends on the JSON alone and is given
/// the name `json_strings`.
#[verifier::external_body]
pub(crate) fn strings_from_json(json: &str) -> (r: Option<Vec<String>>)
    ensures
        match r {
            Some(list) => json_strings(json@) == Some(text::list_view(list@)),
            None => json_strings(json@) is None,
        },
{
    serde_json::from_str::<Vec<String>>(json).ok()
}

} // verus!
