//! JSON documents as plain data.
//!
//! [`Json`] is the executable tree that the rest of the library reads and
//! builds; [`JsonValue`] is its mathematical value, over which every contract
//! on documents is stated.

use vstd::prelude::*;

verus! {

/// The mathematical value of a JSON document.
///
/// An object is the sequence of its members in document order. A number is
/// kept with its value only when it is a non-negative integer below 2^64;
/// every other number is `OtherNumber`.
pub ghost enum JsonValue {
    Null,
    Bool(bool),
    Unsigned(u64),
    OtherNumber,
    Text(Seq<char>),
    Array(Seq<JsonValue>),
    Object(Seq<(Seq<char>, JsonValue)>),
}

/// The value that an object's members give to `key`: that of the last member
/// with this name, if there is one.
pub open spec fn member(entries: Seq<(Seq<char>, JsonValue)>, key: Seq<char>) -> Option<JsonValue>
    decreases entries.len(),
{
    if entries.len() == 0 {
        None
    } else if entries.last().0 == key {
        Some(entries.last().1)
    } else {
        member(entries.drop_last(), key)
    }
}

/// No two members of an object share a name.
pub open spec fn keys_distinct(entries: Seq<(Seq<char>, JsonValue)>) -> bool {
    forall|i: int, j: int| 0 <= i < j < entries.len() ==> entries[i].0 != entries[j].0
}

impl JsonValue {
    /// The value of member `key`, where this document is an object that has one.
    pub open spec fn field(self, key: Seq<char>) -> Option<JsonValue> {
        match self {
            JsonValue::Object(entries) => member(entries, key),
            _ => None,
        }
    }

    /// The document can be written out as it stands: every number in it is
    /// kept with its value, and no object names a member twice.
    pub open spec fn printable(self) -> bool
        decreases self,
    {
        match self {
            JsonValue::OtherNumber => false,
            JsonValue::Array(items) => forall|i: int|
                #![trigger items[i]]
                0 <= i < items.len() ==> items[i].printable(),
            JsonValue::Object(entries) => keys_distinct(entries) && forall|i: int|
                #![trigger entries[i]]
                0 <= i < entries.len() ==> entries[i].1.printable(),
            _ => true,
        }
    }
}

/// Every item of a printable array is printable.
pub proof fn lemma_printable_item(items: Seq<JsonValue>, i: int)
    requires
        JsonValue::Array(items).printable(),
        0 <= i < items.len(),
    ensures
        items[i].printable(),
{
    let doc = JsonValue::Array(items);
    assert(doc.printable());
    assert(doc->Array_0 == items);
}

/// Every member of a printable object has a printable value.
pub proof fn lemma_printable_member(entries: Seq<(Seq<char>, JsonValue)>, i: int)
    requires
        JsonValue::Object(entries).printable(),
        0 <= i < entries.len(),
    ensures
        entries[i].1.printable(),
{
}

/// A JSON document.
#[derive(Debug, PartialEq, Eq)]
pub enum Json {
    Null,
    Bool(bool),
    /// A non-negative integer below 2^64.
    Unsigned(u64),
    /// Any other number; its value is not kept.
    OtherNumber,
    Text(String),
    Array(Vec<Json>),
    /// The members in document order.
    Object(Vec<(String, Json)>),
}

/// The mathematical value of a document.
pub open spec fn json_value(j: Json) -> JsonValue
    decreases j,
{
    match j {
        Json::Null => JsonValue::Null,
        Json::Bool(b) => JsonValue::Bool(b),
        Json::Unsigned(n) => JsonValue::Unsigned(n),
        Json::OtherNumber => JsonValue::OtherNumber,
        Json::Text(s) => JsonValue::Text(s@),
        Json::Array(items) => JsonValue::Array(
            Seq::new(
                items@.len(),
                |i: int|
                    if 0 <= i < items@.len() {
                        json_value(items@[i])
                    } else {
                        JsonValue::Null
                    },
            ),
        ),
        Json::Object(entries) => JsonValue::Object(
            Seq::new(
                entries@.len(),
                |i: int|
                    if 0 <= i < entries@.len() {
                        (entries@[i].0@, json_value(entries@[i].1))
                    } else {
                        (Seq::empty(), JsonValue::Null)
                    },
            ),
        ),
    }
}

impl View for Json {
    type V = JsonValue;

    open spec fn view(&self) -> JsonValue {
        json_value(*self)
    }
}

/// Whether two strings hold the same text.
pub fn same_text(a: &str, b: &str) -> (r: bool)
    ensures
        r == (a@ == b@),
{
    let left = a.to_owned();
    let right = b.to_owned();
    left == right
}

impl Json {
    /// The member `key` of an object: the last one of that name. `None` where
    /// the document is no object or has no such member.
    pub fn get(&self, key: &str) -> (r: Option<&Json>)
        ensures
            match r {
                Some(found) => self@.field(key@) == Some(found@),
                None => self@.field(key@) is None,
            },
    {
        match self {
            Json::Object(entries) => {
                let ghost members = self@->Object_0;
                let mut found: Option<&Json> = None;
                let mut i: usize = 0;
                while i < entries.len()
                    invariant
                        i <= entries.len(),
                        self@ == JsonValue::Object(members),
                        members.len() == entries@.len(),
                        forall|k: int|
                            0 <= k < entries@.len() ==> #[trigger] members[k] == (
                                entries@[k].0@,
                                entries@[k].1@,
                            ),
                        match found {
                            Some(value) => member(members.take(i as int), key@) == Some(value@),
                            None => member(members.take(i as int), key@) is None,
                        },
                    decreases entries.len() - i,
                {
                    proof {
                        let next = members.take(i as int + 1);
                        assert(next.drop_last() == members.take(i as int));
                        assert(next.last() == members[i as int]);
                    }
                    if same_text(entries[i].0.as_str(), key) {
                        found = Some(&entries[i].1);
                    }
                    i = i + 1;
                }
                proof {
                    assert(members.take(i as int) == members);
                }
                found
            },
            _ => None,
        }
    }

    /// Whether the document can be written out as it stands: every number
    /// in it is kept with its value, and no object names a member twice.
    pub fn is_printable(&self) -> (r: bool)
        ensures
            r == self@.printable(),
        decreases self@,
    {
        match self {
            Json::OtherNumber => false,
            Json::Array(items) => {
                let ghost docs = self@->Array_0;
                let mut i: usize = 0;
                while i < items.len()
                    invariant
                        i <= items.len(),
                        self@ == JsonValue::Array(docs),
                        docs.len() == items@.len(),
                        forall|k: int| 0 <= k < items@.len() ==> #[trigger] docs[k] == items@[k]@,
                        forall|k: int| 0 <= k < i ==> (#[trigger] docs[k]).printable(),
                    decreases items.len() - i,
                {
                    proof {
                        assert(decreases_to!(docs => docs[i as int]));
                        assert(self@->Array_0 == docs);
                        assert(decreases_to!(self@ => self@->Array_0));
                    }
                    if !items[i].is_printable() {
                        proof {
                            if self@.printable() {
                                lemma_printable_item(docs, i as int);
                            }
                        }
                        return false;
                    }
                    i = i + 1;
                }
                true
            },
            Json::Object(entries) => {
                let ghost docs = self@->Object_0;
                let mut i: usize = 0;
                while i < entries.len()
                    invariant
                        i <= entries.len(),
                        self@ == JsonValue::Object(docs),
                        docs.len() == entries@.len(),
                        forall|k: int|
                            0 <= k < entries@.len() ==> #[trigger] docs[k] == (
                                entries@[k].0@,
                                entries@[k].1@,
                            ),
                        forall|k: int| 0 <= k < i ==> (#[trigger] docs[k]).1.printable(),
                    decreases entries.len() - i,
                {
                    proof {
                        assert(decreases_to!(docs => docs[i as int]));
                        assert(decreases_to!(docs[i as int] => docs[i as int].1));
                        assert(self@->Object_0 == docs);
                        assert(decreases_to!(self@ => self@->Object_0));
                    }
                    if !entries[i].1.is_printable() {
                        proof {
                            if self@.printable() {
                                lemma_printable_member(docs, i as int);
                            }
                        }
                        return false;
                    }
                    i = i + 1;
                }
                names_differ(entries)
            },
            _ => true,
        }
    }
}

/// Whether no two members share a name.
fn names_differ(entries: &Vec<(String, Json)>) -> (r: bool)
    ensures
        r == keys_distinct(Json::Object(*entries)@->Object_0),
{
    let ghost docs = Json::Object(*entries)@->Object_0;
    let mut j: usize = 0;
    while j < entries.len()
        invariant
            j <= entries.len(),
            docs == Json::Object(*entries)@->Object_0,
            docs.len() == entries@.len(),
            forall|k: int| 0 <= k < entries@.len() ==> (#[trigger] docs[k]).0 == entries@[k].0@,
            forall|a: int, b: int| 0 <= a < b < j ==> docs[a].0 != docs[b].0,
        decreases entries.len() - j,
    {
        let mut i: usize = 0;
        while i < j
            invariant
                i <= j < entries.len(),
                docs == Json::Object(*entries)@->Object_0,
                docs.len() == entries@.len(),
                forall|k: int|
                    0 <= k < entries@.len() ==> (#[trigger] docs[k]).0 == entries@[k].0@,
                forall|a: int| 0 <= a < i ==> docs[a].0 != docs[j as int].0,
            decreases j - i,
        {
            if same_text(entries[i].0.as_str(), entries[j].0.as_str()) {
                proof {
                    assert(docs[i as int].0 == docs[j as int].0);
                    assert(!keys_distinct(docs));
                }
                return false;
            }
            i = i + 1;
        }
        j = j + 1;
    }
    true
}

} // verus!
