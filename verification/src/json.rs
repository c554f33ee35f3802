//! JSON documents as plain values.
//!
//! A [`Json`] is the tree that a JSON text denotes. Requests build one,
//! responses are read out of one, and [`crate::codec`] turns trees into text
//! and text into trees. Everything in this module is about trees only.

use crate::text::{decimal, decimal_string, integer_i64, parse_integer};
use vstd::prelude::*;

verus! {

/// A JSON document.
///
/// A number holds its literal as it stands in a JSON text: `12`, `-0.5`,
/// `1e9`. Which integer a literal shows, if any, is for
/// [`crate::text::integer`] to say.
///
/// An object is the sequence of its entries, in order. Where a key occurs
/// more than once, the last entry with that key is the one that counts.
#[derive(Debug, PartialEq)]
pub enum Json {
    Null,
    Bool(bool),
    Number(String),
    Str(String),
    Array(Vec<Json>),
    Object(Vec<Entry>),
}

/// One entry of a JSON object: a key and the document under it.
#[derive(Debug, PartialEq)]
pub struct Entry {
    pub key: String,
    pub value: Json,
}

/// The mathematical value of an [`Entry`].
pub struct Member {
    pub key: Seq<char>,
    pub value: JsonValue,
}

/// The mathematical value of a [`Json`].
pub enum JsonValue {
    Null,
    Bool(bool),
    Number(Seq<char>),
    Str(Seq<char>),
    Array(Seq<JsonValue>),
    Object(Seq<Member>),
}

impl View for Json {
    type V = JsonValue;

    open spec fn view(&self) -> JsonValue
        decreases self,
    {
        match self {
            Json::Null => JsonValue::Null,
            Json::Bool(b) => JsonValue::Bool(*b),
            Json::Number(literal) => JsonValue::Number(literal@),
            Json::Str(s) => JsonValue::Str(s@),
            Json::Array(items) => JsonValue::Array(
                Seq::new(
                    items@.len(),
                    |i: int|
                        if 0 <= i < items@.len() {
                            items@[i]@
                        } else {
                            JsonValue::Null
                        },
                ),
            ),
            Json::Object(entries) => JsonValue::Object(
                Seq::new(
                    entries@.len(),
                    |i: int|
                        if 0 <= i < entries@.len() {
                            Member { key: entries@[i].key@, value: entries@[i].value@ }
                        } else {
                            Member { key: Seq::empty(), value: JsonValue::Null }
                        },
                ),
            ),
        }
    }
}

/// The values of a sequence of documents, one for one.
pub open spec fn items_view(items: Seq<Json>) -> Seq<JsonValue> {
    Seq::new(items.len(), |i: int| items[i]@)
}

/// The values of a sequence of object entries, one for one.
pub open spec fn entries_view(entries: Seq<Entry>) -> Seq<Member> {
    Seq::new(entries.len(), |i: int| Member { key: entries[i].key@, value: entries[i].value@ })
}

/// The value under `key` in a sequence of entries: that of the last entry
/// with this key.
pub open spec fn lookup(entries: Seq<Member>, key: Seq<char>) -> Option<JsonValue>
    decreases entries.len(),
{
    if entries.len() == 0 {
        None
    } else if entries.last().key == key {
        Some(entries.last().value)
    } else {
        lookup(entries.drop_last(), key)
    }
}

impl Clone for Json {
    fn clone(&self) -> (copy: Self)
        ensures
            copy@ == self@,
    {
        self.duplicate()
    }
}

impl Clone for Entry {
    fn clone(&self) -> (copy: Self)
        ensures
            copy.key@ == self.key@,
            copy.value@ == self.value@,
    {
        Entry { key: self.key.clone(), value: self.value.duplicate() }
    }
}

impl JsonValue {
    /// The member `key` of an object; nothing for any other kind of value.
    pub open spec fn member(self, key: Seq<char>) -> Option<JsonValue> {
        match self {
            JsonValue::Object(entries) => lookup(entries, key),
            _ => None,
        }
    }
}

/// The view of an array is the view of its items.
pub proof fn array_view(items: Vec<Json>)
    ensures
        Json::Array(items)@ == JsonValue::Array(items_view(items@)),
{
    assert(Json::Array(items)@->Array_0 =~= items_view(items@));
}

/// The view of an object is the view of its entries.
pub proof fn object_view(entries: Vec<Entry>)
    ensures
        Json::Object(entries)@ == JsonValue::Object(entries_view(entries@)),
{
    assert(Json::Object(entries)@->Object_0 =~= entries_view(entries@));
}

/// A lookup sees only the entries from the last occurrence of the key on:
/// what stands before index `i` does not matter if entry `i` has the key and
/// none after it has.
proof fn lookup_found(entries: Seq<Member>, key: Seq<char>, i: int)
    requires
        0 <= i < entries.len(),
        entries[i].key == key,
        forall|j: int| i < j < entries.len() ==> entries[j].key != key,
    ensures
        lookup(entries, key) == Some(entries[i].value),
    decreases entries.len(),
{
    if i != entries.len() - 1 {
        lookup_found(entries.drop_last(), key, i);
    }
}

proof fn lookup_absent(entries: Seq<Member>, key: Seq<char>)
    requires
        forall|j: int| 0 <= j < entries.len() ==> entries[j].key != key,
    ensures
        lookup(entries, key) is None,
    decreases entries.len(),
{
    if entries.len() > 0 {
        lookup_absent(entries.drop_last(), key);
    }
}

impl Json {
    /// The member `key` of an object.
    pub fn get(&self, key: &str) -> (found: Option<&Json>)
        ensures
            match found {
                Some(value) => self@.member(key@) == Some(value@),
                None => self@.member(key@) is None,
            },
    {
        match self {
            Json::Object(entries) => {
                let wanted = key.to_owned();
                let mut i: usize = entries.len();
                while i > 0
                    invariant
                        i <= entries.len(),
                        wanted@ == key@,
                        *self == Json::Object(*entries),
                        forall|j: int| i <= j < entries.len() ==> entries@[j].key@ != key@,
                    decreases i,
                {
                    i -= 1;
                    if entries[i].key == wanted {
                        proof {
                            object_view(*entries);
                            lookup_found(entries_view(entries@), key@, i as int);
                        }
                        return Some(&entries[i].value);
                    }
                }
                proof {
                    object_view(*entries);
                    lookup_absent(entries_view(entries@), key@);
                }
                None
            },
            _ => None,
        }
    }

    /// The text of a JSON string.
    pub fn as_str(&self) -> (text: Option<&String>)
        ensures
            match text {
                Some(s) => self@ == JsonValue::Str(s@),
                None => !(self@ is Str),
            },
    {
        match self {
            Json::Str(s) => Some(s),
            _ => None,
        }
    }

    /// The number that shows an integer.
    pub fn integer(i: i64) -> (doc: Json)
        ensures
            doc@ == JsonValue::Number(decimal(i as int)),
    {
        Json::Number(decimal_string(i))
    }

    /// The integer that the document is, if it is a number that shows one
    /// within `i64`.
    pub fn as_int(&self) -> (number: Option<i64>)
        ensures
            number == match self@ {
                JsonValue::Number(literal) => integer_i64(literal),
                _ => None,
            },
    {
        match self {
            Json::Number(literal) => parse_integer(literal.as_str()),
            _ => None,
        }
    }

    /// The truth value of a JSON `true` or `false`.
    pub fn as_bool(&self) -> (flag: Option<bool>)
        ensures
            match flag {
                Some(b) => self@ == JsonValue::Bool(b),
                None => !(self@ is Bool),
            },
    {
        match self {
            Json::Bool(b) => Some(*b),
            _ => None,
        }
    }

    /// The items of a JSON array.
    pub fn as_array(&self) -> (items: Option<&Vec<Json>>)
        ensures
            match items {
                Some(v) => self@ == JsonValue::Array(items_view(v@)),
                None => !(self@ is Array),
            },
    {
        match self {
            Json::Array(items) => {
                proof {
                    array_view(*items);
                }
                Some(items)
            },
            _ => None,
        }
    }

    /// A copy of the document.
    pub fn duplicate(&self) -> (copy: Json)
        ensures
            copy@ == self@,
        decreases self,
    {
        match self {
            Json::Null => Json::Null,
            Json::Bool(b) => Json::Bool(*b),
            Json::Number(literal) => Json::Number(literal.clone()),
            Json::Str(s) => Json::Str(s.clone()),
            Json::Array(items) => {
                let mut copies: Vec<Json> = Vec::new();
                let mut i: usize = 0;
                while i < items.len()
                    invariant
                        i <= items.len(),
                        copies@.len() == i,
                        *self == Json::Array(*items),
                        forall|j: int| 0 <= j < i ==> copies@[j]@ == items@[j]@,
                    decreases items.len() - i,
                {
                    assert(decreases_to!(*self => self->Array_0));
                    assert(decreases_to!(*items => items[i as int]));
                    copies.push(items[i].duplicate());
                    i += 1;
                }
                proof {
                    array_view(*items);
                    array_view(copies);
                    assert(items_view(copies@) =~= items_view(items@));
                }
                Json::Array(copies)
            },
            Json::Object(entries) => {
                let mut copies: Vec<Entry> = Vec::new();
                let mut i: usize = 0;
                while i < entries.len()
                    invariant
                        i <= entries.len(),
                        copies@.len() == i,
                        *self == Json::Object(*entries),
                        forall|j: int|
                            0 <= j < i ==> (#[trigger] copies@[j]).key@ == entries@[j].key@
                                && copies@[j].value@ == entries@[j].value@,
                    decreases entries.len() - i,
                {
                    assert(decreases_to!(*self => self->Object_0));
                    assert(decreases_to!(*entries => entries[i as int]));
                    copies.push(
                        Entry { key: entries[i].key.clone(), value: entries[i].value.duplicate() },
                    );
                    i += 1;
                }
                proof {
                    object_view(*entries);
                    object_view(copies);
                    assert(entries_view(copies@) =~= entries_view(entries@));
                }
                Json::Object(copies)
            },
        }
    }

    /// Whether the document is `null`.
    pub fn is_null(&self) -> (null: bool)
        ensures
            null == (self@ is Null),
    {
        match self {
            Json::Null => true,
            _ => false,
        }
    }
}

} // verus!
