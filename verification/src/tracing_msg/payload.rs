//! The fields that a span or an event carries: each name with the values
//! recorded under it, in the order in which the names first came up.

use indexmap::IndexMap;
use vstd::prelude::*;
use vstd::string::*;

verus! {

/// One recorded value. A floating-point number is kept as its 64 bits.
#[derive(Debug, PartialEq, Eq)]
pub enum Value {
    Debug(String),
    F64(u64),
    I64(i64),
    U64(u64),
    I128(i128),
    U128(u128),
    Bool(bool),
    String(String),
    Bytes(Vec<u8>),
    Error(String),
}

/// A text without the characters of code zero.
pub open spec fn without_nulls(text: Seq<char>) -> Seq<char> {
    text.filter(|c: char| c != '\0')
}

/// `str::replace` of a character by nothing: the text without that
/// character.
#[verifier::external_body]
fn strip(text: &str, unwanted: char) -> (clean: String)
    ensures
        clean@ == text@.filter(|c: char| c != unwanted),
{
    text.replace(unwanted, "")
}

/// The text without the characters of code zero.
fn strip_nulls(text: &str) -> (clean: String)
    ensures
        clean@ == without_nulls(text@),
{
    strip(text, '\0')
}

impl Value {
    /// The text of a value that is one.
    pub open spec fn spec_text(self) -> Option<Seq<char>> {
        match self {
            Value::Debug(text) => Some(text@),
            Value::String(text) => Some(text@),
            Value::Error(text) => Some(text@),
            _ => None,
        }
    }

    /// `self` is `value` with the characters of code zero taken out of its
    /// text, where it has one.
    pub open spec fn cleaned_from(self, value: Value) -> bool {
        match value {
            Value::Debug(text) => self matches Value::Debug(clean) && clean@ == without_nulls(
                text@,
            ),
            Value::String(text) => self matches Value::String(clean) && clean@ == without_nulls(
                text@,
            ),
            Value::Error(text) => self matches Value::Error(clean) && clean@ == without_nulls(
                text@,
            ),
            _ => self == value,
        }
    }

    pub fn get_text(&self) -> (text: Option<String>)
        ensures
            match text {
                Some(t) => self.spec_text() == Some(t@),
                None => self.spec_text() is None,
            },
    {
        match self {
            Self::Debug(value) => Some(value.clone()),
            Self::String(value) => Some(value.clone()),
            Self::Error(value) => Some(value.clone()),
            _ => None,
        }
    }

    pub fn nulls_removed(self) -> (clean: Self)
        ensures
            clean.cleaned_from(self),
    {
        match self {
            Self::Debug(value) => Self::Debug(strip_nulls(value.as_str())),
            Self::String(value) => Self::String(strip_nulls(value.as_str())),
            Self::Error(value) => Self::Error(strip_nulls(value.as_str())),
            other => other,
        }
    }
}

/// What a map of recorded fields holds: each name with its values, in the
/// order of the map.
pub uninterp spec fn payload_entries(map: IndexMap<String, Vec<Value>>) -> Seq<
    (Seq<char>, Seq<Value>),
>;

/// `IndexMap::new`: a map that holds nothing.
#[verifier::external_body]
fn no_fields() -> (made: IndexMap<String, Vec<Value>>)
    ensures
        payload_entries(made).len() == 0,
{
    IndexMap::new()
}

/// `IndexMap::get_index_of`: the place of the name in the map, which holds
/// no name twice; nothing where the map does not hold the name.
#[verifier::external_body]
fn position(map: &IndexMap<String, Vec<Value>>, key: &str) -> (at: Option<usize>)
    ensures
        match at {
            Some(i) => {
                &&& i < payload_entries(*map).len()
                &&& forall|j: int|
                    0 <= j < payload_entries(*map).len() ==> (#[trigger] payload_entries(
                        *map,
                    )[j].0 == key@ <==> j == i)
            },
            None => forall|j: int|
                0 <= j < payload_entries(*map).len() ==> #[trigger] payload_entries(*map)[j].0
                    != key@,
        },
{
    map.get_index_of(key)
}

/// Indexing an `IndexMap` by a place: the values at that place. The crate
/// panics on a place that the map does not have.
#[verifier::external_body]
fn values_at(map: &IndexMap<String, Vec<Value>>, index: usize) -> (values: &Vec<Value>)
    requires
        index < payload_entries(*map).len(),
    ensures
        values@ == payload_entries(*map)[index as int].1,
{
    &map[index]
}

/// Indexing an `IndexMap` by a place, to change what is there: the values at
/// that place, and whatever they are changed to is what the map holds there
/// afterwards; nothing else changes. The crate panics on a place that the map
/// does not have.
#[verifier::external_body]
fn values_at_mut(map: &mut IndexMap<String, Vec<Value>>, index: usize) -> (values: &mut Vec<Value>)
    requires
        index < payload_entries(*old(map)).len(),
    ensures
        values@ == payload_entries(*old(map))[index as int].1,
        payload_entries(*final(map)) == payload_entries(*old(map)).update(
            index as int,
            (payload_entries(*old(map))[index as int].0, final(values)@),
        ),
{
    &mut map[index]
}

/// `IndexMap::insert` of a name that the map does not hold yet: the name
/// goes to the end, with the given values.
#[verifier::external_body]
fn insert_last(map: &mut IndexMap<String, Vec<Value>>, key: String, values: Vec<Value>)
    requires
        forall|j: int|
            0 <= j < payload_entries(*old(map)).len() ==> #[trigger] payload_entries(
                *old(map),
            )[j].0 != key@,
    ensures
        payload_entries(*final(map)) == payload_entries(*old(map)).push((key@, values@)),
{
    map.insert(key, values);
}

/// Whether the entries hold the name.
pub open spec fn has_key(entries: Seq<(Seq<char>, Seq<Value>)>, key: Seq<char>) -> bool {
    exists|j: int| 0 <= j < entries.len() && #[trigger] entries[j].0 == key
}

/// The first place at which the entries hold the name.
pub open spec fn key_index(entries: Seq<(Seq<char>, Seq<Value>)>, key: Seq<char>) -> int {
    choose|j: int|
        0 <= j < entries.len() && #[trigger] entries[j].0 == key && forall|k: int|
            0 <= k < j ==> #[trigger] entries[k].0 != key
}

/// The entries once the name has come up: as they are where they hold it,
/// else with the name at the end and no values under it.
pub open spec fn with_key(entries: Seq<(Seq<char>, Seq<Value>)>, key: Seq<char>) -> Seq<
    (Seq<char>, Seq<Value>),
> {
    if has_key(entries, key) {
        entries
    } else {
        entries.push((key, Seq::empty()))
    }
}

/// The entries once `value` has been recorded under the name: it is the
/// last value of that name, and the name is at the end where it is new.
pub open spec fn recorded(entries: Seq<(Seq<char>, Seq<Value>)>, key: Seq<char>, value: Value) -> Seq<
    (Seq<char>, Seq<Value>),
> {
    if has_key(entries, key) {
        let at = key_index(entries, key);
        entries.update(at, (key, entries[at].1.push(value)))
    } else {
        entries.push((key, seq![value]))
    }
}

/// What the entries say in words: the text of the first value under the
/// name `message`, where there is such a value and it is a text.
pub open spec fn message_of(entries: Seq<(Seq<char>, Seq<Value>)>) -> Option<Seq<char>> {
    if has_key(entries, "message"@) && entries[key_index(entries, "message"@)].1.len() > 0 {
        entries[key_index(entries, "message"@)].1[0].spec_text()
    } else {
        None
    }
}

/// The fields of one span or event.
#[derive(Debug, PartialEq, Eq)]
pub struct Payload(IndexMap<String, Vec<Value>>);

impl View for Payload {
    type V = Seq<(Seq<char>, Seq<Value>)>;

    closed spec fn view(&self) -> Seq<(Seq<char>, Seq<Value>)> {
        payload_entries(self.0)
    }
}

impl Default for Payload {
    fn default() -> (payload: Payload)
        ensures
            payload@.len() == 0,
    {
        Payload(no_fields())
    }
}

impl Payload {
    /// The place of the name among the fields, if it is there.
    fn find(&self, key: &str) -> (at: Option<usize>)
        ensures
            match at {
                Some(i) => {
                    &&& has_key(self@, key@)
                    &&& i == key_index(self@, key@)
                    &&& i < self@.len()
                    &&& self@[i as int].0 == key@
                },
                None => !has_key(self@, key@),
            },
    {
        let at = position(&self.0, key);
        proof {
            if let Some(i) = at {
                assert(self@[i as int].0 == key@);
                let chosen = key_index(self@, key@);
                assert(self@[chosen].0 == key@);
            }
        }
        at
    }

    /// Makes sure the name is among the fields, with no values where it is new.
    pub fn insert_empty(&mut self, key: &str)
        ensures
            final(self)@ == with_key(old(self)@, key@),
    {
        match self.find(key) {
            Some(_) => {},
            None => {
                insert_last(&mut self.0, String::from_str(key), Vec::new());
            },
        }
    }

    /// Records a value under the name.
    pub fn record(&mut self, key: &str, value: Value)
        ensures
            final(self)@ == recorded(old(self)@, key@, value),
    {
        match self.find(key) {
            Some(at) => {
                let values = values_at_mut(&mut self.0, at);
                values.push(value);
            },
            None => {
                let mut values = Vec::new();
                values.push(value);
                insert_last(&mut self.0, String::from_str(key), values);
            },
        }
    }

    /// Records a value under the name, without the characters of code zero
    /// that its text may hold.
    pub fn record_field(&mut self, key: &str, value: Value)
        ensures
            exists|clean: Value| #[trigger]
                clean.cleaned_from(value) && final(self)@ == recorded(old(self)@, key@, clean),
    {
        let clean = value.nulls_removed();
        self.record(key, clean);
    }

    /// What the fields say in words, where they say anything.
    pub fn message(&self) -> (words: Option<String>)
        ensures
            match words {
                Some(text) => message_of(self@) == Some(text@),
                None => message_of(self@) is None,
            },
    {
        match self.find("message") {
            None => None,
            Some(at) => {
                let values = values_at(&self.0, at);
                if values.len() > 0 {
                    values[0].get_text()
                } else {
                    None
                }
            },
        }
    }

    /// The fields as the map that holds them.
    pub fn fields(&self) -> (map: &IndexMap<String, Vec<Value>>)
        ensures
            payload_entries(*map) == self@,
    {
        &self.0
    }

    /// The map that holds the fields.
    pub fn into_fields(self) -> (map: IndexMap<String, Vec<Value>>)
        ensures
            payload_entries(map) == self@,
    {
        self.0
    }
}

} // verus!
