//! Documents as text.
//!
//! Reading and writing JSON text is `serde_json`'s work. This module states
//! what the library relies on of it, and moves documents between its `Value`
//! and [`Json`] in verified code.

use crate::error::DeserializationError;
use crate::json::{
    keys_distinct, lemma_printable_item, lemma_printable_member, Json, JsonValue,
};
use vstd::prelude::*;

verus! {

#[verifier::external_type_specification]
#[verifier::external_body]
pub struct ExValue(serde_json::Value);

#[verifier::external_type_specification]
#[verifier::external_body]
pub struct ExError(serde_json::Error);

/// What a `serde_json::Value` holds: its variant, with `Number` split by
/// whether `as_u64` gives the number, and the members of an object in the
/// order in which its map hands them out.
pub uninterp spec fn value_doc(v: serde_json::Value) -> JsonValue;

/// The document that `serde_json::from_str` reads from a text; `None` where
/// it reports an error.
pub uninterp spec fn parsed(text: Seq<char>) -> Option<JsonValue>;

/// The text that `serde_json::to_string` writes for a document; `None` where
/// it reports an error.
pub uninterp spec fn printed(doc: JsonValue) -> Option<Seq<char>>;

/// `serde_json::Value::is_null`: whether the value is `Null`.
pub assume_specification[ serde_json::Value::is_null ](v: &serde_json::Value) -> (r: bool)
    ensures
        r == (value_doc(*v) is Null),
;

/// `serde_json::Value::as_bool`: the boolean of a `Bool`, `None` for every
/// other variant.
pub assume_specification[ serde_json::Value::as_bool ](v: &serde_json::Value) -> (r: Option<bool>)
    ensures
        r == (match value_doc(*v) {
            JsonValue::Bool(b) => Some(b),
            _ => None,
        }),
;

/// `serde_json::Value::as_u64`: the number of a `Number` that holds a
/// non-negative integer, `None` for every other value.
pub assume_specification[ serde_json::Value::as_u64 ](v: &serde_json::Value) -> (r: Option<u64>)
    ensures
        r == (match value_doc(*v) {
            JsonValue::Unsigned(n) => Some(n),
            _ => None,
        }),
;

/// `serde_json::Value::as_str`: the text of a `String`, `None` for every
/// other variant.
pub assume_specification<'a>[ serde_json::Value::as_str ](v: &'a serde_json::Value) -> (r: Option<
    &'a str,
>)
    ensures
        match r {
            Some(s) => value_doc(*v) == JsonValue::Text(s@),
            None => !(value_doc(*v) is Text),
        },
;

/// `serde_json::Value::as_array`: the items of an `Array`, `None` for every
/// other variant.
pub assume_specification<'a>[ serde_json::Value::as_array ](v: &'a serde_json::Value) -> (r: Option<
    &'a Vec<serde_json::Value>,
>)
    ensures
        match r {
            Some(items) => value_doc(*v) == JsonValue::Array(
                items@.map_values(|item: serde_json::Value| value_doc(item)),
            ),
            None => !(value_doc(*v) is Array),
        },
;

/// `serde_json::Value::as_object` and `serde_json::Map::iter`: the members of
/// an `Object` in the map's order, `None` for every other variant.
#[verifier::external_body]
fn object_entries<'a>(v: &'a serde_json::Value) -> (r: Option<
    Vec<(&'a String, &'a serde_json::Value)>,
>)
    ensures
        match r {
            Some(entries) => value_doc(*v) == JsonValue::Object(
                entries@.map_values(
                    |entry: (&String, &serde_json::Value)| (entry.0@, value_doc(*entry.1)),
                ),
            ),
            None => !(value_doc(*v) is Object),
        },
{
    v.as_object().map(|members| members.iter().collect())
}

/// The variant `serde_json::Value::Null`.
#[verifier::external_body]
fn null_value() -> (v: serde_json::Value)
    ensures
        value_doc(v) == JsonValue::Null,
{
    serde_json::Value::Null
}

/// The variant `serde_json::Value::Bool`.
#[verifier::external_body]
fn bool_value(b: bool) -> (v: serde_json::Value)
    ensures
        value_doc(v) == JsonValue::Bool(b),
{
    serde_json::Value::Bool(b)
}

/// `serde_json::Value::from` on a `u64`: a `Number` that holds this
/// non-negative integer.
#[verifier::external_body]
fn unsigned_value(n: u64) -> (v: serde_json::Value)
    ensures
        value_doc(v) == JsonValue::Unsigned(n),
{
    serde_json::Value::from(n)
}

/// The variant `serde_json::Value::String`.
#[verifier::external_body]
fn text_value(s: String) -> (v: serde_json::Value)
    ensures
        value_doc(v) == JsonValue::Text(s@),
{
    serde_json::Value::String(s)
}

/// The variant `serde_json::Value::Array`.
#[verifier::external_body]
fn array_value(items: Vec<serde_json::Value>) -> (v: serde_json::Value)
    ensures
        value_doc(v) == JsonValue::Array(
            items@.map_values(|item: serde_json::Value| value_doc(item)),
        ),
{
    serde_json::Value::Array(items)
}

/// The variant `serde_json::Value::Object` over a `serde_json::Map` collected
/// from the members. With the crate's `preserve_order` feature, which this
/// library builds it with, the map hands out members of distinct names in the
/// order in which they went in.
#[verifier::external_body]
fn object_value(entries: Vec<(String, serde_json::Value)>) -> (v: serde_json::Value)
    requires
        forall|i: int, j: int| 0 <= i < j < entries@.len() ==> entries@[i].0@ != entries@[j].0@,
    ensures
        value_doc(v) == JsonValue::Object(
            entries@.map_values(
                |entry: (String, serde_json::Value)| (entry.0@, value_doc(entry.1)),
            ),
        ),
{
    serde_json::Value::Object(entries.into_iter().collect())
}

/// `serde_json::from_str` at the type `serde_json::Value`: the same text gives
/// the same document, or an error every time.
#[verifier::external_body]
fn read_value(text: &str) -> (r: Result<serde_json::Value, serde_json::Error>)
    ensures
        match r {
            Ok(v) => parsed(text@) == Some(value_doc(v)),
            Err(_) => parsed(text@) is None,
        },
{
    serde_json::from_str::<serde_json::Value>(text)
}

/// `serde_json::Error::line`: the line at which reading stopped.
pub assume_specification[ serde_json::Error::line ](e: &serde_json::Error) -> (r: usize)
;

/// `serde_json::Error::column`: the column at which reading stopped.
pub assume_specification[ serde_json::Error::column ](e: &serde_json::Error) -> (r: usize)
;

/// `serde_json::to_string` on a `serde_json::Value`: values that hold the same
/// printable document give the same text, or an error every time.
#[verifier::external_body]
fn write_value(v: &serde_json::Value) -> (r: Option<String>)
    ensures
        value_doc(*v).printable() ==> match r {
            Some(text) => printed(value_doc(*v)) == Some(text@),
            None => printed(value_doc(*v)) is None,
        },
{
    serde_json::to_string(v).ok()
}

/// The document that a `serde_json::Value` holds.
fn from_value(v: &serde_json::Value) -> (j: Json)
    ensures
        j@ == value_doc(*v),
    decreases value_doc(*v),
{
    if v.is_null() {
        return Json::Null;
    }
    if let Some(b) = v.as_bool() {
        return Json::Bool(b);
    }
    if let Some(n) = v.as_u64() {
        return Json::Unsigned(n);
    }
    if let Some(s) = v.as_str() {
        return Json::Text(s.to_owned());
    }
    if let Some(items) = v.as_array() {
        let ghost docs = items@.map_values(|item: serde_json::Value| value_doc(item));
        let mut out: Vec<Json> = Vec::new();
        let mut i: usize = 0;
        while i < items.len()
            invariant
                i <= items.len(),
                out@.len() == i,
                docs == items@.map_values(|item: serde_json::Value| value_doc(item)),
                value_doc(*v) == JsonValue::Array(docs),
                forall|k: int| 0 <= k < i ==> (#[trigger] out@[k])@ == docs[k],
            decreases items.len() - i,
        {
            proof {
                assert(docs[i as int] == value_doc(items@[i as int]));
                assert(decreases_to!(docs => docs[i as int]));
                assert(value_doc(*v)->Array_0 == docs);
                assert(decreases_to!(value_doc(*v) => value_doc(*v)->Array_0));
            }
            let item = from_value(&items[i]);
            out.push(item);
            i = i + 1;
        }
        let j = Json::Array(out);
        proof {
            assert(j@->Array_0 =~= docs);
        }
        return j;
    }
    if let Some(entries) = object_entries(v) {
        let ghost docs = entries@.map_values(
            |entry: (&String, &serde_json::Value)| (entry.0@, value_doc(*entry.1)),
        );
        let mut out: Vec<(String, Json)> = Vec::new();
        let mut i: usize = 0;
        while i < entries.len()
            invariant
                i <= entries.len(),
                out@.len() == i,
                docs == entries@.map_values(
                    |entry: (&String, &serde_json::Value)| (entry.0@, value_doc(*entry.1)),
                ),
                value_doc(*v) == JsonValue::Object(docs),
                forall|k: int|
                    0 <= k < i ==> ((#[trigger] out@[k]).0@, out@[k].1@) == docs[k],
            decreases entries.len() - i,
        {
            proof {
                assert(docs[i as int] == (entries@[i as int].0@, value_doc(*entries@[i as int].1)));
                assert(decreases_to!(docs => docs[i as int]));
                assert(decreases_to!(docs[i as int] => docs[i as int].1));
                assert(value_doc(*v)->Object_0 == docs);
                assert(decreases_to!(value_doc(*v) => value_doc(*v)->Object_0));
            }
            let name: String = entries[i].0.clone();
            let value = from_value(entries[i].1);
            out.push((name, value));
            i = i + 1;
        }
        let j = Json::Object(out);
        proof {
            assert(j@->Object_0 =~= docs);
        }
        return j;
    }
    Json::OtherNumber
}

/// A `serde_json::Value` that holds the document.
fn to_value(j: &Json) -> (v: serde_json::Value)
    requires
        j@.printable(),
    ensures
        value_doc(v) == j@,
    decreases j@,
{
    match j {
        Json::Null => null_value(),
        Json::Bool(b) => bool_value(*b),
        Json::Unsigned(n) => unsigned_value(*n),
        // A printable document holds no such number.
        Json::OtherNumber => null_value(),
        Json::Text(s) => text_value(s.clone()),
        Json::Array(items) => {
            let ghost docs = j@->Array_0;
            let mut out: Vec<serde_json::Value> = Vec::new();
            let mut i: usize = 0;
            while i < items.len()
                invariant
                    i <= items.len(),
                    out@.len() == i,
                    j@ == JsonValue::Array(docs),
                    j@.printable(),
                    docs.len() == items@.len(),
                    forall|k: int| 0 <= k < items@.len() ==> #[trigger] docs[k] == items@[k]@,
                    forall|k: int| 0 <= k < i ==> value_doc(#[trigger] out@[k]) == docs[k],
                decreases items.len() - i,
            {
                proof {
                    lemma_printable_item(docs, i as int);
                    assert(decreases_to!(docs => docs[i as int]));
                    assert(j@->Array_0 == docs);
                    assert(decreases_to!(j@ => j@->Array_0));
                }
                let item = to_value(&items[i]);
                out.push(item);
                i = i + 1;
            }
            let v = array_value(out);
            proof {
                assert(out@.map_values(|item: serde_json::Value| value_doc(item)) =~= docs);
            }
            v
        },
        Json::Object(entries) => {
            let ghost docs = j@->Object_0;
            let mut out: Vec<(String, serde_json::Value)> = Vec::new();
            let mut i: usize = 0;
            while i < entries.len()
                invariant
                    i <= entries.len(),
                    out@.len() == i,
                    j@ == JsonValue::Object(docs),
                    j@.printable(),
                    docs.len() == entries@.len(),
                    forall|k: int|
                        0 <= k < entries@.len() ==> #[trigger] docs[k] == (
                            entries@[k].0@,
                            entries@[k].1@,
                        ),
                    forall|k: int|
                        0 <= k < i ==> ((#[trigger] out@[k]).0@, value_doc(out@[k].1)) == docs[k],
                decreases entries.len() - i,
            {
                proof {
                    lemma_printable_member(docs, i as int);
                    assert(decreases_to!(docs => docs[i as int]));
                    assert(decreases_to!(docs[i as int] => docs[i as int].1));
                    assert(j@->Object_0 == docs);
                    assert(decreases_to!(j@ => j@->Object_0));
                }
                let name: String = entries[i].0.clone();
                let value = to_value(&entries[i].1);
                out.push((name, value));
                i = i + 1;
            }
            proof {
                assert(keys_distinct(docs));
                assert forall|a: int, b: int| 0 <= a < b < out@.len() implies out@[a].0@
                    != out@[b].0@ by {
                    assert(docs[a].0 != docs[b].0);
                }
            }
            let v = object_value(out);
            proof {
                assert(out@.map_values(
                    |entry: (String, serde_json::Value)| (entry.0@, value_doc(entry.1)),
                ) =~= docs);
            }
            v
        },
    }
}

impl Json {
    /// Reads a document from JSON text.
    ///
    /// The result is the document that the text denotes; a text that denotes
    /// none gives `Syntax`, with the place where reading stopped.
    pub fn parse(text: &str) -> (r: Result<Json, DeserializationError>)
        ensures
            match r {
                Ok(j) => parsed(text@) == Some(j@),
                Err(e) => parsed(text@) is None && e@ is Syntax,
            },
    {
        match read_value(text) {
            Ok(v) => Ok(from_value(&v)),
            Err(e) => Err(DeserializationError::Syntax { line: e.line(), column: e.column() }),
        }
    }

    /// Writes a printable document as JSON text; `None` where the serializer
    /// reports an error.
    pub(crate) fn print(&self) -> (r: Option<String>)
        requires
            self@.printable(),
        ensures
            match r {
                Some(text) => printed(self@) == Some(text@),
                None => printed(self@) is None,
            },
    {
        let v = to_value(self);
        write_value(&v)
    }

    /// Writes the document as JSON text. `None` for a document that is not
    /// printable, and where the serializer reports an error.
    pub fn to_text(&self) -> (r: Option<String>)
        ensures
            match r {
                Some(text) => self@.printable() && printed(self@) == Some(text@),
                None => !self@.printable() || printed(self@) is None,
            },
    {
        if self.is_printable() {
            self.print()
        } else {
            None
        }
    }
}

} // verus!
