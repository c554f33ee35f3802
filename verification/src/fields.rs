//! The members of JSON objects: writing them one by one, and reading them by
//! key.
//!
//! A record is written as an object whose members stand in the order of the
//! record's fields. A field that may be absent is written only where it is
//! present. A record is read from an object by the names of its fields:
//! members that it does not know are passed over, a field that must be there
//! and is not, or holds another kind of value, fails the reading, and a field
//! that may be absent is read as absent where the member is missing or
//! `null`.

use crate::codec::{DecodeError, FromJson, ToJson};
use crate::json::{
    array_view, entries_view, items_view, lookup, object_view, Entry, Json, JsonValue, Member,
};
use crate::text::{decimal, integer, integer_i64, integer_of_decimal, text_view};
use vstd::prelude::*;
use vstd::string::StringExecFns;

verus! {

/// The one member `key: value`.
pub open spec fn one(key: Seq<char>, value: JsonValue) -> Seq<Member> {
    seq![Member { key, value }]
}

/// The member `key: value` where there is a value, else no member.
pub open spec fn maybe(key: Seq<char>, value: Option<JsonValue>) -> Seq<Member> {
    match value {
        Some(v) => seq![Member { key, value: v }],
        None => Seq::empty(),
    }
}

/// The document of an optional text.
pub open spec fn text_json(text: Option<Seq<char>>) -> Option<JsonValue> {
    match text {
        Some(s) => Some(JsonValue::Str(s)),
        None => None,
    }
}

/// The document of an optional truth value.
pub open spec fn flag_json(flag: Option<bool>) -> Option<JsonValue> {
    match flag {
        Some(b) => Some(JsonValue::Bool(b)),
        None => None,
    }
}

/// The document of an optional integer.
pub open spec fn int_json(number: Option<i64>) -> Option<JsonValue> {
    match number {
        Some(i) => Some(JsonValue::Number(decimal(i as int))),
        None => None,
    }
}

/// The document of an optional value.
pub open spec fn value_json<T: ToJson>(value: Option<T>) -> Option<JsonValue> {
    match value {
        Some(v) => Some(v.json()),
        None => None,
    }
}

/// The documents of a sequence of values, one for one.
pub open spec fn jsons<T: ToJson>(items: Seq<T>) -> Seq<JsonValue> {
    Seq::new(items.len(), |i: int| items[i].json())
}

/// The mathematical values of a sequence of values, one for one.
pub open spec fn models<T: FromJson>(items: Seq<T>) -> Seq<T::Model> {
    Seq::new(items.len(), |i: int| items[i].model())
}

/// Of two runs of members the later one is looked through first.
pub proof fn lookup_add(a: Seq<Member>, b: Seq<Member>, key: Seq<char>)
    ensures
        lookup(a + b, key) == match lookup(b, key) {
            Some(value) => Some(value),
            None => lookup(a, key),
        },
    decreases b.len(),
{
    if b.len() == 0 {
        assert(a + b =~= a);
    } else {
        assert((a + b).drop_last() =~= a + b.drop_last());
        assert((a + b).last() == b.last());
        lookup_add(a, b.drop_last(), key);
    }
}

/// Members under other keys do not change what stands under a key.
pub proof fn lookup_skips(a: Seq<Member>, b: Seq<Member>, key: Seq<char>)
    requires
        forall|i: int| 0 <= i < b.len() ==> b[i].key != key,
    ensures
        lookup(a + b, key) == lookup(a, key),
    decreases b.len(),
{
    if b.len() == 0 {
        assert(a + b =~= a);
    } else {
        assert((a + b).drop_last() =~= a + b.drop_last());
        assert((a + b).last() == b.last());
        lookup_skips(a, b.drop_last(), key);
    }
}

/// Appends the member `key: value`.
pub fn put(entries: &mut Vec<Entry>, key: &str, value: Json)
    ensures
        entries_view(final(entries)@) == entries_view(old(entries)@) + one(key@, value@),
{
    entries.push(Entry { key: String::from_str(key), value });
    assert(entries_view(entries@) =~= entries_view(old(entries)@) + one(key@, value@));
}

/// Appends the member `key: value` where there is a value.
pub fn put_some(entries: &mut Vec<Entry>, key: &str, value: Option<Json>)
    ensures
        entries_view(final(entries)@) == entries_view(old(entries)@) + maybe(
            key@,
            match value {
                Some(v) => Some(v@),
                None => None,
            },
        ),
{
    match value {
        Some(v) => {
            put(entries, key, v);
        },
        None => {
            assert(entries_view(entries@) =~= entries_view(old(entries)@) + Seq::<Member>::empty());
        },
    }
}

/// Appends a text under `key`.
pub fn put_text(entries: &mut Vec<Entry>, key: &str, text: &String)
    ensures
        entries_view(final(entries)@) == entries_view(old(entries)@) + one(
            key@,
            JsonValue::Str(text@),
        ),
{
    put(entries, key, Json::Str(text.clone()));
}

/// Appends an integer under `key`.
pub fn put_int(entries: &mut Vec<Entry>, key: &str, number: i64)
    ensures
        entries_view(final(entries)@) == entries_view(old(entries)@) + one(
            key@,
            JsonValue::Number(decimal(number as int)),
        ),
{
    put(entries, key, Json::integer(number));
}

/// Appends a truth value under `key`.
pub fn put_flag(entries: &mut Vec<Entry>, key: &str, flag: bool)
    ensures
        entries_view(final(entries)@) == entries_view(old(entries)@) + one(
            key@,
            JsonValue::Bool(flag),
        ),
{
    put(entries, key, Json::Bool(flag));
}

/// Appends a text under `key` where there is one.
pub fn put_opt_text(entries: &mut Vec<Entry>, key: &str, text: &Option<String>)
    ensures
        entries_view(final(entries)@) == entries_view(old(entries)@) + maybe(
            key@,
            text_json(text_view(*text)),
        ),
{
    match text {
        Some(s) => put_some(entries, key, Some(Json::Str(s.clone()))),
        None => put_some(entries, key, None),
    }
}

/// Appends a text under `key`, or `null` where there is none.
pub fn put_text_or_null(entries: &mut Vec<Entry>, key: &str, text: &Option<String>)
    ensures
        entries_view(final(entries)@) == entries_view(old(entries)@) + one(
            key@,
            match text_view(*text) {
                Some(s) => JsonValue::Str(s),
                None => JsonValue::Null,
            },
        ),
{
    match text {
        Some(s) => put(entries, key, Json::Str(s.clone())),
        None => put(entries, key, Json::Null),
    }
}

/// Appends a truth value under `key` where there is one.
pub fn put_opt_flag(entries: &mut Vec<Entry>, key: &str, flag: &Option<bool>)
    ensures
        entries_view(final(entries)@) == entries_view(old(entries)@) + maybe(
            key@,
            flag_json(*flag),
        ),
{
    match flag {
        Some(b) => put_some(entries, key, Some(Json::Bool(*b))),
        None => put_some(entries, key, None),
    }
}

/// Appends an integer under `key` where there is one.
pub fn put_opt_int(entries: &mut Vec<Entry>, key: &str, number: &Option<i64>)
    ensures
        entries_view(final(entries)@) == entries_view(old(entries)@) + maybe(
            key@,
            int_json(*number),
        ),
{
    match number {
        Some(i) => put_some(entries, key, Some(Json::integer(*i))),
        None => put_some(entries, key, None),
    }
}

/// Appends the document of a value under `key` where there is a value.
pub fn put_opt<T: ToJson>(entries: &mut Vec<Entry>, key: &str, value: &Option<T>)
    ensures
        entries_view(final(entries)@) == entries_view(old(entries)@) + maybe(
            key@,
            value_json(*value),
        ),
{
    match value {
        Some(v) => put_some(entries, key, Some(v.to_json())),
        None => put_some(entries, key, None),
    }
}

/// The object with these members.
pub fn object(entries: Vec<Entry>) -> (doc: Json)
    ensures
        doc@ == JsonValue::Object(entries_view(entries@)),
{
    proof {
        object_view(entries);
    }
    Json::Object(entries)
}

impl ToJson for () {
    open spec fn json(&self) -> JsonValue {
        JsonValue::Null
    }

    fn to_json(&self) -> (doc: Json) {
        Json::Null
    }
}

impl ToJson for String {
    open spec fn json(&self) -> JsonValue {
        JsonValue::Str(self@)
    }

    fn to_json(&self) -> (doc: Json) {
        Json::Str(self.clone())
    }
}

impl<T: ToJson> ToJson for Vec<T> {
    /// The array of the items' documents.
    open spec fn json(&self) -> JsonValue {
        JsonValue::Array(jsons(self@))
    }

    fn to_json(&self) -> (doc: Json) {
        let mut items: Vec<Json> = Vec::new();
        let mut i: usize = 0;
        while i < self.len()
            invariant
                i <= self.len(),
                items@.len() == i,
                forall|j: int| 0 <= j < i ==> items@[j]@ == self@[j].json(),
            decreases self.len() - i,
        {
            items.push(self[i].to_json());
            i += 1;
        }
        proof {
            array_view(items);
            assert(items_view(items@) =~= jsons(self@));
        }
        Json::Array(items)
    }
}

/// The member `key` as a text: it must be there and be a string.
pub open spec fn text_at(doc: JsonValue, key: Seq<char>) -> Option<Seq<char>> {
    match doc.member(key) {
        Some(JsonValue::Str(s)) => Some(s),
        _ => None,
    }
}

/// The member `key` as a text that may be absent: a string, or nothing where
/// the member is missing or `null`. Any other value fails.
pub open spec fn opt_text_at(doc: JsonValue, key: Seq<char>) -> Option<Option<Seq<char>>> {
    match doc.member(key) {
        None => Some(None),
        Some(JsonValue::Null) => Some(None),
        Some(JsonValue::Str(s)) => Some(Some(s)),
        _ => None,
    }
}

/// The member `key` as an `i64`: it must be there and be a number that shows
/// an integer in range.
pub open spec fn i64_at(doc: JsonValue, key: Seq<char>) -> Option<i64> {
    match doc.member(key) {
        Some(JsonValue::Number(literal)) => integer_i64(literal),
        _ => None,
    }
}

/// The member `key` as an `isize`: it must be there and be a number that
/// shows an integer in range.
pub open spec fn isize_at(doc: JsonValue, key: Seq<char>) -> Option<isize> {
    match doc.member(key) {
        Some(JsonValue::Number(literal)) => match integer(literal) {
            Some(i) => if isize::MIN <= i <= isize::MAX {
                Some(i as isize)
            } else {
                None
            },
            None => None,
        },
        _ => None,
    }
}

/// The member `key` as a truth value: it must be there and be `true` or
/// `false`.
pub open spec fn flag_at(doc: JsonValue, key: Seq<char>) -> Option<bool> {
    match doc.member(key) {
        Some(JsonValue::Bool(b)) => Some(b),
        _ => None,
    }
}

/// The member `key` as a value of type `T`: it must be there and hold one.
pub open spec fn value_at<T: FromJson>(doc: JsonValue, key: Seq<char>) -> Option<T::Model> {
    match doc.member(key) {
        Some(v) => T::decoded(v),
        None => None,
    }
}

/// Each of the documents as a value of type `T`, where each holds one.
pub open spec fn decoded_items<T: FromJson>(items: Seq<JsonValue>) -> Option<Seq<T::Model>> {
    if forall|i: int| 0 <= i < items.len() ==> (#[trigger] T::decoded(items[i])) is Some {
        Some(Seq::new(items.len(), |i: int| T::decoded(items[i])->0))
    } else {
        None
    }
}

/// What is written last under a key is what is read under it.
pub proof fn member_written_is_read(members: Seq<Member>, key: Seq<char>, value: JsonValue)
    ensures
        JsonValue::Object(members + one(key, value)).member(key) == Some(value),
{
    lookup_add(members, one(key, value), key);
    reveal_with_fuel(lookup, 2);
}

/// An integer written under a key is read back as the same integer.
pub proof fn integer_written_is_read(members: Seq<Member>, key: Seq<char>, number: i64)
    ensures
        i64_at(
            JsonValue::Object(members + one(key, JsonValue::Number(decimal(number as int)))),
            key,
        ) == Some(number),
{
    member_written_is_read(members, key, JsonValue::Number(decimal(number as int)));
    integer_of_decimal(number as int);
}

/// A text written under a key where there is one, and left out where there
/// is none, is read back as it was.
pub proof fn optional_text_written_is_read(
    members: Seq<Member>,
    key: Seq<char>,
    text: Option<Seq<char>>,
)
    requires
        lookup(members, key) is None,
    ensures
        opt_text_at(JsonValue::Object(members + maybe(key, text_json(text))), key) == Some(text),
{
    lookup_add(members, maybe(key, text_json(text)), key);
    reveal_with_fuel(lookup, 2);
}

/// Reads the member `key` as a text.
pub fn read_text(doc: &Json, key: &str) -> (r: Result<String, DecodeError>)
    ensures
        match r {
            Ok(s) => text_at(doc@, key@) == Some(s@),
            Err(e) => text_at(doc@, key@) is None && e@ is Shape,
        },
{
    match doc.get(key) {
        Some(value) => match value.as_str() {
            Some(s) => Ok(s.clone()),
            None => Err(DecodeError::Shape),
        },
        None => Err(DecodeError::Shape),
    }
}

/// Reads the member `key` as a text that may be absent.
pub fn read_opt_text(doc: &Json, key: &str) -> (r: Result<Option<String>, DecodeError>)
    ensures
        match r {
            Ok(s) => opt_text_at(doc@, key@) == Some(text_view(s)),
            Err(e) => opt_text_at(doc@, key@) is None && e@ is Shape,
        },
{
    match doc.get(key) {
        Some(value) => {
            if value.is_null() {
                Ok(None)
            } else {
                match value.as_str() {
                    Some(s) => Ok(Some(s.clone())),
                    None => Err(DecodeError::Shape),
                }
            }
        },
        None => Ok(None),
    }
}

/// Reads the member `key` as an `i64`.
pub fn read_i64(doc: &Json, key: &str) -> (r: Result<i64, DecodeError>)
    ensures
        match r {
            Ok(i) => i64_at(doc@, key@) == Some(i),
            Err(e) => i64_at(doc@, key@) is None && e@ is Shape,
        },
{
    match doc.get(key) {
        Some(value) => match value.as_int() {
            Some(i) => Ok(i),
            None => Err(DecodeError::Shape),
        },
        None => Err(DecodeError::Shape),
    }
}

/// Reads the member `key` as an `isize`.
pub fn read_isize(doc: &Json, key: &str) -> (r: Result<isize, DecodeError>)
    ensures
        match r {
            Ok(i) => isize_at(doc@, key@) == Some(i),
            Err(e) => isize_at(doc@, key@) is None && e@ is Shape,
        },
{
    match doc.get(key) {
        Some(value) => match value.as_int() {
            Some(i) => {
                if i < isize::MIN as i64 || i > isize::MAX as i64 {
                    Err(DecodeError::Shape)
                } else {
                    Ok(i as isize)
                }
            },
            None => Err(DecodeError::Shape),
        },
        None => Err(DecodeError::Shape),
    }
}

/// Reads the member `key` as a truth value.
pub fn read_flag(doc: &Json, key: &str) -> (r: Result<bool, DecodeError>)
    ensures
        match r {
            Ok(b) => flag_at(doc@, key@) == Some(b),
            Err(e) => flag_at(doc@, key@) is None && e@ is Shape,
        },
{
    match doc.get(key) {
        Some(value) => match value.as_bool() {
            Some(b) => Ok(b),
            None => Err(DecodeError::Shape),
        },
        None => Err(DecodeError::Shape),
    }
}

/// Reads the member `key` as a value of type `T`.
pub fn read<T: FromJson>(doc: &Json, key: &str) -> (r: Result<T, DecodeError>)
    ensures
        match r {
            Ok(v) => value_at::<T>(doc@, key@) == Some(v.model()),
            Err(e) => value_at::<T>(doc@, key@) is None && e@ is Shape,
        },
{
    match doc.get(key) {
        Some(value) => T::from_json(value),
        None => Err(DecodeError::Shape),
    }
}

impl FromJson for String {
    type Model = Seq<char>;

    open spec fn model(&self) -> Seq<char> {
        self@
    }

    open spec fn decoded(doc: JsonValue) -> Option<Seq<char>> {
        match doc {
            JsonValue::Str(s) => Some(s),
            _ => None,
        }
    }

    fn from_json(doc: &Json) -> (r: Result<Self, DecodeError>) {
        match doc.as_str() {
            Some(s) => Ok(s.clone()),
            None => Err(DecodeError::Shape),
        }
    }
}

impl<T: FromJson> FromJson for Vec<T> {
    type Model = Seq<T::Model>;

    open spec fn model(&self) -> Seq<T::Model> {
        models(self@)
    }

    /// An array each of whose items holds a `T`.
    open spec fn decoded(doc: JsonValue) -> Option<Seq<T::Model>> {
        match doc {
            JsonValue::Array(items) => decoded_items::<T>(items),
            _ => None,
        }
    }

    fn from_json(doc: &Json) -> (r: Result<Self, DecodeError>) {
        match doc.as_array() {
            None => Err(DecodeError::Shape),
            Some(items) => {
                let mut values: Vec<T> = Vec::new();
                let mut i: usize = 0;
                while i < items.len()
                    invariant
                        i <= items.len(),
                        values@.len() == i,
                        doc@ == JsonValue::Array(items_view(items@)),
                        forall|j: int|
                            0 <= j < i ==> T::decoded(items@[j]@) == Some(
                                #[trigger] values@[j].model(),
                            ),
                    decreases items.len() - i,
                {
                    match T::from_json(&items[i]) {
                        Ok(v) => {
                            values.push(v);
                        },
                        Err(e) => {
                            assert(T::decoded(items_view(items@)[i as int]) is None);
                            return Err(e);
                        },
                    }
                    i += 1;
                }
                proof {
                    let docs = items_view(items@);
                    assert forall|j: int| 0 <= j < docs.len() implies (#[trigger] T::decoded(
                        docs[j],
                    )) is Some by {
                        assert(T::decoded(items@[j]@) == Some(values@[j].model()));
                    }
                    assert(models(values@) =~= decoded_items::<T>(docs)->0) by {
                        assert forall|j: int| 0 <= j < docs.len() implies models(values@)[j]
                            == T::decoded(docs[j])->0 by {
                            assert(T::decoded(items@[j]@) == Some(values@[j].model()));
                        }
                    }
                }
                Ok(values)
            },
        }
    }
}

} // verus!
