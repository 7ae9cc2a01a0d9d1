//! Documents in TOML as plain values.

use crate::number::Float64;
use crate::text::str_eq;
use vstd::prelude::*;

verus! {

/// A value of a TOML document.
pub enum TomlValue {
    Text(String),
    Integer(i64),
    Float(Float64),
    Boolean(bool),
    /// A date, a time or both, in the notation of TOML.
    Datetime(String),
    Array(Vec<TomlValue>),
    Table(Vec<TomlEntry>),
}

/// A key of a TOML table with its value.
pub struct TomlEntry {
    pub key: String,
    pub value: TomlValue,
}

/// The model of a value.
#[verifier::ext_equal]
pub enum TomlModel {
    Text(Seq<char>),
    Integer(i64),
    Float(Float64),
    Boolean(bool),
    Datetime(Seq<char>),
    Array(Seq<TomlModel>),
    Table(Seq<(Seq<char>, TomlModel)>),
}

impl TomlValue {
    /// The model of the value.
    pub open spec fn model(self) -> TomlModel
        decreases self,
    {
        match self {
            TomlValue::Text(s) => TomlModel::Text(s@),
            TomlValue::Integer(n) => TomlModel::Integer(n),
            TomlValue::Float(f) => TomlModel::Float(f),
            TomlValue::Boolean(b) => TomlModel::Boolean(b),
            TomlValue::Datetime(d) => TomlModel::Datetime(d@),
            TomlValue::Array(items) => TomlModel::Array(
                Seq::new(
                    items@.len(),
                    |i: int|
                        if 0 <= i < items@.len() {
                            items@[i].model()
                        } else {
                            TomlModel::Boolean(false)
                        },
                ),
            ),
            TomlValue::Table(entries) => TomlModel::Table(
                Seq::new(
                    entries@.len(),
                    |i: int|
                        if 0 <= i < entries@.len() {
                            (entries@[i].key@, entries@[i].value.model())
                        } else {
                            (seq![], TomlModel::Boolean(false))
                        },
                ),
            ),
        }
    }
}

/// The entries of a table.
pub open spec fn entries_model(entries: Seq<TomlEntry>) -> Seq<(Seq<char>, TomlModel)> {
    entries.map_values(|e: TomlEntry| (e.key@, e.value.model()))
}

/// The items of an array.
pub open spec fn items_model(items: Seq<TomlValue>) -> Seq<TomlModel> {
    items.map_values(|v: TomlValue| v.model())
}

/// The value of a key, the first one where there are several.
pub open spec fn lookup(entries: Seq<(Seq<char>, TomlModel)>, key: Seq<char>) -> Option<TomlModel>
    decreases entries.len(),
{
    if entries.len() == 0 {
        None
    } else if entries[0].0 == key {
        Some(entries[0].1)
    } else {
        lookup(entries.skip(1), key)
    }
}

/// The text under a key; none where there is no text.
pub open spec fn text_at(entries: Seq<(Seq<char>, TomlModel)>, key: Seq<char>) -> Option<
    Seq<char>,
> {
    match lookup(entries, key) {
        Some(TomlModel::Text(v)) => Some(v),
        _ => None,
    }
}

/// The integer under a key; none where there is no integer.
pub open spec fn integer_at(entries: Seq<(Seq<char>, TomlModel)>, key: Seq<char>) -> Option<
    i64,
> {
    match lookup(entries, key) {
        Some(TomlModel::Integer(v)) => Some(v),
        _ => None,
    }
}

/// The truth value under a key; none where there is none.
pub open spec fn bool_at(entries: Seq<(Seq<char>, TomlModel)>, key: Seq<char>) -> Option<
    bool,
> {
    match lookup(entries, key) {
        Some(TomlModel::Boolean(v)) => Some(v),
        _ => None,
    }
}

/// The floating-point number under a key; none where there is none, an integer included.
pub open spec fn float_at(entries: Seq<(Seq<char>, TomlModel)>, key: Seq<char>) -> Option<
    Float64,
> {
    match lookup(entries, key) {
        Some(TomlModel::Float(v)) => Some(v),
        _ => None,
    }
}

/// The items of the array under a key; none where there is no array.
pub open spec fn array_at(entries: Seq<(Seq<char>, TomlModel)>, key: Seq<char>) -> Option<
    Seq<TomlModel>,
> {
    match lookup(entries, key) {
        Some(TomlModel::Array(v)) => Some(v),
        _ => None,
    }
}

/// The entries of the table under a key; none where there is no table.
pub open spec fn table_at(entries: Seq<(Seq<char>, TomlModel)>, key: Seq<char>) -> Option<
    Seq<(Seq<char>, TomlModel)>,
> {
    match lookup(entries, key) {
        Some(TomlModel::Table(v)) => Some(v),
        _ => None,
    }
}

impl TomlValue {
    /// The text, where the value is one.
    pub fn as_str(&self) -> (r: Option<&str>)
        ensures
            match r {
                Some(s) => self.model() == TomlModel::Text(s@),
                None => !(self.model() is Text),
            },
    {
        match self {
            TomlValue::Text(s) => Some(s.as_str()),
            _ => None,
        }
    }

    /// The entries, where the value is a table.
    pub fn as_table(&self) -> (r: Option<&Vec<TomlEntry>>)
        ensures
            match r {
                Some(entries) => self.model() == TomlModel::Table(entries_model(entries@)),
                None => !(self.model() is Table),
            },
    {
        match self {
            TomlValue::Table(entries) => {
                proof {
                    let m = self.model();
                    assert(m->Table_0 =~= entries_model(entries@));
                }
                Some(entries)
            },
            _ => None,
        }
    }

    /// The items, where the value is an array.
    pub fn as_array(&self) -> (r: Option<&Vec<TomlValue>>)
        ensures
            match r {
                Some(items) => self.model() == TomlModel::Array(items_model(items@)),
                None => !(self.model() is Array),
            },
    {
        match self {
            TomlValue::Array(items) => {
                proof {
                    let m = self.model();
                    assert(m->Array_0 =~= items_model(items@));
                }
                Some(items)
            },
            _ => None,
        }
    }
}

/// The value of a key.
pub fn get<'a>(entries: &'a Vec<TomlEntry>, key: &str) -> (r: Option<&'a TomlValue>)
    ensures
        match r {
            Some(value) => lookup(entries_model(entries@), key@) == Some(value.model()),
            None => lookup(entries_model(entries@), key@) is None,
        },
{
    let mut i: usize = 0;
    proof {
        assert(entries_model(entries@).skip(0) =~= entries_model(entries@));
    }
    while i < entries.len()
        invariant
            i <= entries@.len(),
            lookup(entries_model(entries@), key@) == lookup(
                entries_model(entries@).skip(i as int),
                key@,
            ),
        decreases entries@.len() - i,
    {
        proof {
            let rest = entries_model(entries@).skip(i as int);
            assert(rest[0] == (entries@[i as int].key@, entries@[i as int].value.model()));
            assert(rest.skip(1) =~= entries_model(entries@).skip(i + 1));
        }
        if str_eq(entries[i].key.as_str(), key) {
            return Some(&entries[i].value);
        }
        i += 1;
    }
    None
}

/// The text under a key.
pub fn get_str<'a>(entries: &'a Vec<TomlEntry>, key: &str) -> (r: Option<&'a str>)
    ensures
        match r {
            Some(s) => text_at(entries_model(entries@), key@) == Some(s@),
            None => text_at(entries_model(entries@), key@) is None,
        },
{
    match get(entries, key) {
        Some(value) => value.as_str(),
        None => None,
    }
}

/// The integer under a key.
pub fn get_integer(entries: &Vec<TomlEntry>, key: &str) -> (r: Option<i64>)
    ensures
        r == integer_at(entries_model(entries@), key@),
{
    match get(entries, key) {
        Some(TomlValue::Integer(v)) => Some(*v),
        _ => None,
    }
}

/// The truth value under a key.
pub fn get_bool(entries: &Vec<TomlEntry>, key: &str) -> (r: Option<bool>)
    ensures
        r == bool_at(entries_model(entries@), key@),
{
    match get(entries, key) {
        Some(TomlValue::Boolean(v)) => Some(*v),
        _ => None,
    }
}

/// The floating-point number under a key.
pub fn get_float(entries: &Vec<TomlEntry>, key: &str) -> (r: Option<Float64>)
    ensures
        r == float_at(entries_model(entries@), key@),
{
    match get(entries, key) {
        Some(TomlValue::Float(v)) => Some(*v),
        _ => None,
    }
}

/// The items of the array under a key.
pub fn get_array<'a>(entries: &'a Vec<TomlEntry>, key: &str) -> (r: Option<&'a Vec<TomlValue>>)
    ensures
        match r {
            Some(inner) => array_at(entries_model(entries@), key@) == Some(items_model(inner@)),
            None => array_at(entries_model(entries@), key@) is None,
        },
{
    match get(entries, key) {
        Some(value) => value.as_array(),
        None => None,
    }
}

/// The entries of the table under a key.
pub fn get_table<'a>(entries: &'a Vec<TomlEntry>, key: &str) -> (r: Option<&'a Vec<TomlEntry>>)
    ensures
        match r {
            Some(inner) => table_at(entries_model(entries@), key@) == Some(entries_model(inner@)),
            None => table_at(entries_model(entries@), key@) is None,
        },
{
    match get(entries, key) {
        Some(value) => value.as_table(),
        None => None,
    }
}

/// `toml::Value` of the crate `toml`: a value of a parsed document.
#[verifier::external_type_specification]
#[verifier::external_body]
pub struct ExTomlValue(toml::Value);

/// What `toml::from_str` reads from a text: the entries of the document in the order of the
/// parsed table, or none where the text is not a TOML document.
pub uninterp spec fn toml_document(text: Seq<char>) -> Option<Seq<(Seq<char>, TomlModel)>>;

/// A `toml::Value` as a value of the library, variant for variant. Nothing is claimed of it; it
/// converts what `toml_from_str` hands out.
#[verifier::external_body]
fn toml_value(value: toml::Value) -> (r: TomlValue) {
    match value {
        toml::Value::String(s) => TomlValue::Text(s),
        toml::Value::Integer(n) => TomlValue::Integer(n),
        toml::Value::Float(f) => TomlValue::Float(Float64 { bits: f.to_bits() }),
        toml::Value::Boolean(b) => TomlValue::Boolean(b),
        toml::Value::Datetime(d) => TomlValue::Datetime(d.to_string()),
        toml::Value::Array(a) => TomlValue::Array(a.into_iter().map(toml_value).collect()),
        toml::Value::Table(t) => TomlValue::Table(
            t.into_iter().map(|(key, v)| TomlEntry { key, value: toml_value(v) }).collect(),
        ),
    }
}

/// `toml::from_str` of the crate `toml`, reading a `toml::Table`: the entries of the document, or
/// none where it reports an error. What it reads depends on the text alone and is given the name
/// `toml_document`; which texts are documents, and what they mean, is left to the crate.
#[verifier::external_body]
fn toml_from_str(text: &str) -> (r: Option<Vec<TomlEntry>>)
    ensures
        match r {
            Some(entries) => toml_document(text@) == Some(entries_model(entries@)),
            None => toml_document(text@) is None,
        },
{
    match toml::from_str::<toml::Table>(text) {
        Ok(t) => Some(
            t.into_iter().map(|(key, v)| TomlEntry { key, value: toml_value(v) }).collect(),
        ),
        Err(_) => None,
    }
}

/// The entries of a TOML document; none where the text is not one.
pub fn parse_document(text: &str) -> (r: Option<Vec<TomlEntry>>)
    ensures
        match r {
            Some(entries) => toml_document(text@) == Some(entries_model(entries@)),
            None => toml_document(text@) is None,
        },
{
    toml_from_str(text)
}

/// The value of a key is that of the first entry with the key, and there is none where no entry
/// has it.
pub proof fn a_key_has_its_first_value(
    entries: Seq<(Seq<char>, TomlModel)>,
    key: Seq<char>,
)
    ensures
        match lookup(entries, key) {
            Some(v) => exists|i: int|
                0 <= i < entries.len() && #[trigger] entries[i] == (key, v) && forall|j: int|
                    0 <= j < i ==> (#[trigger] entries[j]).0 != key,
            None => forall|i: int| 0 <= i < entries.len() ==> (#[trigger] entries[i]).0 != key,
        },
    decreases entries.len(),
{
    if entries.len() > 0 && entries[0].0 != key {
        let rest = entries.skip(1);
        a_key_has_its_first_value(rest, key);
        match lookup(entries, key) {
            Some(v) => {
                let k = choose|k: int|
                    0 <= k < rest.len() && #[trigger] rest[k] == (key, v) && forall|j: int|
                        0 <= j < k ==> (#[trigger] rest[j]).0 != key;
                assert(entries[k + 1] == (key, v));
                assert forall|j: int| 0 <= j < k + 1 implies (#[trigger] entries[j]).0 != key by {
                    if j > 0 {
                        assert(rest[j - 1] == entries[j]);
                    }
                }
            },
            None => {
                assert forall|i: int| 0 <= i < entries.len() implies (#[trigger] entries[i]).0
                    != key by {
                    if i > 0 {
                        assert(rest[i - 1] == entries[i]);
                    }
                }
            },
        }
    } else if entries.len() > 0 {
        assert(entries[0] == (key, entries[0].1));
    }
}

/// The value at a place of a table where no earlier one has its key is found by the key, as what
/// it is and as nothing else.
pub proof fn values_are_found_by_their_keys(entries: Seq<(Seq<char>, TomlModel)>, i: int)
    requires
        0 <= i < entries.len(),
        forall|j: int| 0 <= j < i ==> (#[trigger] entries[j]).0 != entries[i].0,
    ensures
        ({
            let (key, v) = entries[i];
            &&& lookup(entries, key) == Some(v)
            &&& text_at(entries, key) == match v {
                TomlModel::Text(s) => Some(s),
                _ => None,
            }
            &&& integer_at(entries, key) == match v {
                TomlModel::Integer(n) => Some(n),
                _ => None,
            }
            &&& bool_at(entries, key) == match v {
                TomlModel::Boolean(b) => Some(b),
                _ => None,
            }
            &&& float_at(entries, key) == match v {
                TomlModel::Float(f) => Some(f),
                _ => None,
            }
            &&& array_at(entries, key) == match v {
                TomlModel::Array(items) => Some(items),
                _ => None,
            }
            &&& table_at(entries, key) == match v {
                TomlModel::Table(inner) => Some(inner),
                _ => None,
            }
        }),
{
    let (key, v) = entries[i];
    a_key_has_its_first_value(entries, key);
    match lookup(entries, key) {
        Some(w) => {
            let k = choose|k: int|
                0 <= k < entries.len() && #[trigger] entries[k] == (key, w) && forall|j: int|
                    0 <= j < k ==> (#[trigger] entries[j]).0 != key;
            assert(entries[i].0 == key);
            assert(entries[k].0 == key);
            assert(k == i);
        },
        None => {
            assert(entries[i].0 != key);
        },
    }
}

} // verus!
