//! A JSON document model held as plain values, its lookup operations with
//! exact specifications, and the bridge to serde_json for reading and writing
//! JSON text.

use vstd::prelude::*;
use crate::text::same_text;

verus! {

/// A JSON value. Numbers that are unsigned 64-bit integers are held as such;
/// any other number is kept as its text.
pub enum Json {
    Null,
    Bool(bool),
    UInt(u64),
    OtherNumber(String),
    Str(String),
    Array(Vec<Json>),
    Object(Vec<(String, Json)>),
}

/// The value stored under `key` among `entries`, the first one if several.
pub open spec fn entry_lookup(entries: Seq<(String, Json)>, key: Seq<char>) -> Option<Json>
    decreases entries.len(),
{
    if entries.len() == 0 {
        None
    } else if entries[0].0@ == key {
        Some(entries[0].1)
    } else {
        entry_lookup(entries.drop_first(), key)
    }
}

/// The member `key` of `v`, when `v` is an object that has one.
pub open spec fn lookup(v: Json, key: Seq<char>) -> Option<Json> {
    match v {
        Json::Object(entries) => entry_lookup(entries@, key),
        _ => None,
    }
}

/// What `v[key]` denotes: the member `key` of an object, `Null` when `v` is
/// not an object or has no such member.
pub open spec fn member(v: Json, key: Seq<char>) -> Json {
    match lookup(v, key) {
        Some(x) => x,
        None => Json::Null,
    }
}

/// What `v[0]` denotes: the first element of a non-empty array, `Null`
/// otherwise.
pub open spec fn first_element(v: Json) -> Json {
    match v {
        Json::Array(items) => if items@.len() > 0 {
            items@[0]
        } else {
            Json::Null
        },
        _ => Json::Null,
    }
}

pub open spec fn as_text(v: Json) -> Option<Seq<char>> {
    match v {
        Json::Str(s) => Some(s@),
        _ => None,
    }
}

pub open spec fn as_uint(v: Json) -> Option<u64> {
    match v {
        Json::UInt(n) => Some(n),
        _ => None,
    }
}

/// The texts of an array of strings; `None` when `v` is not an array or one
/// of its elements is not a string.
pub open spec fn text_list(v: Json) -> Option<Seq<Seq<char>>> {
    match v {
        Json::Array(items) => if forall|i: int|
            0 <= i < items@.len() ==> (#[trigger] as_text(items@[i])).is_some() {
            Some(items@.map_values(|x: Json| as_text(x).unwrap()))
        } else {
            None
        },
        _ => None,
    }
}

impl Json {
    /// Looks up the member `key`, as `self[key]` would.
    pub fn get(&self, key: &str) -> (r: Option<&Json>)
        ensures
            match r {
                Some(x) => lookup(*self, key@) == Some(*x),
                None => lookup(*self, key@) is None,
            },
    {
        match self {
            Json::Object(entries) => {
                let mut i: usize = 0;
                assert(entries@.subrange(0, entries@.len() as int) =~= entries@);
                while i < entries.len()
                    invariant
                        i <= entries@.len(),
                        lookup(*self, key@) == entry_lookup(entries@, key@),
                        entry_lookup(entries@, key@) == entry_lookup(
                            entries@.subrange(i as int, entries@.len() as int),
                            key@,
                        ),
                    decreases entries.len() - i,
                {
                    let ghost rest = entries@.subrange(i as int, entries@.len() as int);
                    if same_text(entries[i].0.as_str(), key) {
                        assert(rest.len() > 0 && rest[0] == entries@[i as int]);
                        assert(entry_lookup(rest, key@) == Some(rest[0].1));
                        return Some(&entries[i].1);
                    }
                    assert(rest.drop_first() =~= entries@.subrange(
                        i + 1,
                        entries@.len() as int,
                    ));
                    i = i + 1;
                }
                None
            },
            _ => None,
        }
    }

    pub fn as_str(&self) -> (r: Option<&String>)
        ensures
            match r {
                Some(s) => as_text(*self) == Some(s@),
                None => as_text(*self) is None,
            },
    {
        match self {
            Json::Str(s) => Some(s),
            _ => None,
        }
    }

    pub fn as_u64(&self) -> (r: Option<u64>)
        ensures
            r == as_uint(*self),
    {
        match self {
            Json::UInt(n) => Some(*n),
            _ => None,
        }
    }
}

/// What serde_json reads from a text: the document, or the reader's error
/// text. Both depend on the text alone.
pub uninterp spec fn parsed_document(text: Seq<char>) -> Result<Json, Seq<char>>;

/// The compact text that serde_json writes for a document; it depends on the
/// document alone.
pub uninterp spec fn json_text(j: Json) -> Seq<char>;

#[verifier::external_type_specification]
#[verifier::external_body]
pub struct ExJsonValue(serde_json::Value);

/// Converts a serde_json value into a document, one variant for one.
#[verifier::external_body]
fn value_to_json(v: serde_json::Value) -> Json {
    match v {
        serde_json::Value::Null => Json::Null,
        serde_json::Value::Bool(b) => Json::Bool(b),
        serde_json::Value::Number(n) => match n.as_u64() {
            Some(u) => Json::UInt(u),
            None => Json::OtherNumber(n.to_string()),
        },
        serde_json::Value::String(s) => Json::Str(s),
        serde_json::Value::Array(a) => Json::Array(a.into_iter().map(value_to_json).collect()),
        serde_json::Value::Object(m) => Json::Object(
            m.into_iter().map(|(k, x)| (k, value_to_json(x))).collect(),
        ),
    }
}

/// Converts a document into a serde_json value, one variant for one.
#[verifier::external_body]
fn json_to_value(j: &Json) -> serde_json::Value {
    match j {
        Json::Null => serde_json::Value::Null,
        Json::Bool(b) => serde_json::Value::Bool(*b),
        Json::UInt(n) => serde_json::Value::from(*n),
        Json::OtherNumber(t) => serde_json::from_str(t).unwrap_or(serde_json::Value::Null),
        Json::Str(s) => serde_json::Value::String(s.clone()),
        Json::Array(items) => serde_json::Value::Array(items.iter().map(json_to_value).collect()),
        Json::Object(ms) => serde_json::Value::Object(
            ms.iter().map(|(k, x)| (k.clone(), json_to_value(x))).collect(),
        ),
    }
}

/// Relies on serde_json::from_str reading a `Value`: the document or the
/// reader's error text, as named by `parsed_document`.
#[verifier::external_body]
fn read_document(text: &str) -> (r: Result<Json, String>)
    ensures
        match r {
            Ok(j) => parsed_document(text@) == Ok::<Json, Seq<char>>(j),
            Err(e) => parsed_document(text@) == Err::<Json, Seq<char>>(e@),
        },
{
    serde_json::from_str::<serde_json::Value>(text).map(value_to_json).map_err(|e| e.to_string())
}

/// Relies on serde_json's `Display` for `Value`: the compact text named by
/// `json_text`.
#[verifier::external_body]
fn write_text(j: &Json) -> (r: String)
    ensures
        r@ == json_text(*j),
{
    json_to_value(j).to_string()
}

impl Json {
    /// Reads a JSON document from its text, as serde_json reads it.
    pub fn parse(text: &str) -> (r: Result<Json, String>)
        ensures
            match r {
                Ok(j) => parsed_document(text@) == Ok::<Json, Seq<char>>(j),
                Err(e) => parsed_document(text@) == Err::<Json, Seq<char>>(e@),
            },
    {
        read_document(text)
    }

    /// Writes the document as compact JSON text, as serde_json writes it.
    pub fn render(&self) -> (r: String)
        ensures
            r@ == json_text(*self),
    {
        write_text(self)
    }
}

} // verus!
