//! JSON documents, as far as the library reads them.
//!
//! Replies of the record store and of the generation backend are JSON. The
//! parsing is `serde_json`'s; what it yields is copied, node for node, into
//! the `Json` of this module, and every rule of the library that reads a
//! reply is stated and proved over that type.

use vstd::prelude::*;

verus! {

#[verifier::external_type_specification]
#[verifier::external_body]
pub struct ExValue(serde_json::Value);

#[verifier::external_type_specification]
#[verifier::external_body]
pub struct ExError(serde_json::Error);

/// A JSON document. A number is kept as the library reads it: as the
/// unsigned 64-bit integer that it is, or as no such integer.
#[derive(Debug, PartialEq, Eq)]
pub enum Json {
    Null,
    Bool(bool),
    Number(Option<u64>),
    Text(String),
    Array(Vec<Json>),
    Object(Vec<(String, Json)>),
}

/// What a `Json` holds, as sequences.
pub enum JsonView {
    Null,
    Bool(bool),
    Number(Option<u64>),
    Text(Seq<char>),
    Array(Seq<JsonView>),
    Object(Seq<(Seq<char>, JsonView)>),
}

/// The first member of `members` that is named `key`.
pub open spec fn lookup(members: Seq<(Seq<char>, JsonView)>, key: Seq<char>) -> Option<JsonView>
    decreases members.len(),
{
    if members.len() == 0 {
        None
    } else if members[0].0 == key {
        Some(members[0].1)
    } else {
        lookup(members.drop_first(), key)
    }
}

impl JsonView {
    /// The member named `key`, where the document is an object that has one.
    pub open spec fn member(self, key: Seq<char>) -> Option<JsonView> {
        match self {
            JsonView::Object(members) => lookup(members, key),
            _ => None,
        }
    }

    /// The element at `index`, where the document is an array that has one.
    pub open spec fn element(self, index: int) -> Option<JsonView> {
        match self {
            JsonView::Array(items) => if 0 <= index < items.len() {
                Some(items[index])
            } else {
                None
            },
            _ => None,
        }
    }

    /// The text, where the document is a string.
    pub open spec fn text(self) -> Option<Seq<char>> {
        match self {
            JsonView::Text(text) => Some(text),
            _ => None,
        }
    }

    /// The elements, where the document is an array.
    pub open spec fn items(self) -> Option<Seq<JsonView>> {
        match self {
            JsonView::Array(items) => Some(items),
            _ => None,
        }
    }

    /// The number, where the document is an unsigned 64-bit integer.
    pub open spec fn number(self) -> Option<u64> {
        match self {
            JsonView::Number(number) => number,
            _ => None,
        }
    }
}

/// What `json` holds.
pub open spec fn json_view(json: Json) -> JsonView
    decreases json,
{
    match json {
        Json::Null => JsonView::Null,
        Json::Bool(value) => JsonView::Bool(value),
        Json::Number(number) => JsonView::Number(number),
        Json::Text(text) => JsonView::Text(text@),
        Json::Array(items) => JsonView::Array(
            Seq::new(
                items@.len(),
                |i: int|
                    if 0 <= i < items@.len() {
                        json_view(items@[i])
                    } else {
                        JsonView::Null
                    },
            ),
        ),
        Json::Object(members) => JsonView::Object(
            Seq::new(
                members@.len(),
                |i: int|
                    if 0 <= i < members@.len() {
                        (members@[i].0@, json_view(members@[i].1))
                    } else {
                        (Seq::empty(), JsonView::Null)
                    },
            ),
        ),
    }
}

impl DeepView for Json {
    type V = JsonView;

    open spec fn deep_view(&self) -> JsonView {
        json_view(*self)
    }
}

impl View for Json {
    type V = JsonView;

    open spec fn view(&self) -> JsonView {
        self.deep_view()
    }
}

impl Json {
    /// The member named `key`, where the document is an object that has one.
    pub fn member(&self, key: &str) -> (found: Option<&Json>)
        ensures
            found.deep_view() == self@.member(key@),
    {
        match self {
            Json::Object(members) => {
                let ghost all = self@->Object_0;
                let mut i: usize = 0;
                assert(all.skip(0) =~= all);
                while i < members.len()
                    invariant
                        i <= members.len(),
                        self@ == JsonView::Object(all),
                        all.len() == members.len(),
                        forall|j: int|
                            0 <= j < members.len() ==> all[j] == (
                                members@[j].0@,
                                members@[j].1.deep_view(),
                            ),
                        lookup(all, key@) == lookup(all.skip(i as int), key@),
                    decreases members.len() - i,
                {
                    let ghost rest = all.skip(i as int);
                    assert(rest.drop_first() =~= all.skip(i + 1));
                    if crate::text::same_text(members[i].0.as_str(), key) {
                        return Some(&members[i].1);
                    }
                    i += 1;
                }
                None
            },
            _ => None,
        }
    }

    /// The element at `index`, where the document is an array that has one.
    pub fn element(&self, index: usize) -> (found: Option<&Json>)
        ensures
            found.deep_view() == self@.element(index as int),
    {
        match self {
            Json::Array(items) => {
                if index < items.len() {
                    Some(&items[index])
                } else {
                    None
                }
            },
            _ => None,
        }
    }

    /// The text, where the document is a string.
    pub fn as_text(&self) -> (text: Option<&String>)
        ensures
            text.deep_view() == self@.text(),
    {
        match self {
            Json::Text(text) => Some(text),
            _ => None,
        }
    }

    /// The elements, where the document is an array.
    pub fn as_items(&self) -> (items: Option<&Vec<Json>>)
        ensures
            items.deep_view() == self@.items(),
    {
        match self {
            Json::Array(items) => {
                Some(items)
            },
            _ => None,
        }
    }

    /// The number, where the document is an unsigned 64-bit integer.
    pub fn as_number(&self) -> (number: Option<u64>)
        ensures
            number == self@.number(),
    {
        match self {
            Json::Number(number) => *number,
            _ => None,
        }
    }
}

/// The document that `serde_json` reads from `bytes`; `None` where it reads none.
pub uninterp spec fn json_of(bytes: Seq<u8>) -> Option<JsonView>;

/// What a `serde_json::Value` holds.
pub uninterp spec fn tree_of(value: serde_json::Value) -> JsonView;

/// `serde_json::from_slice`, asked for a `Value`. It reads `bytes` as one
/// JSON document and fails on anything else. The contract gives what it reads
/// a name, `json_of`, as a function of the bytes, and says no more of it.
#[verifier::external_body]
fn parse(bytes: &[u8]) -> (parsed: Result<serde_json::Value, serde_json::Error>)
    ensures
        match parsed {
            Ok(value) => json_of(bytes@) == Some(tree_of(value)),
            Err(_) => json_of(bytes@) is None,
        },
{
    serde_json::from_slice::<serde_json::Value>(bytes)
}

/// Copies a `serde_json::Value` into a `Json`, variant for variant. Of a
/// number it keeps what `Number::as_u64` gives: the number where it is an
/// unsigned integer of 64 bits, and nothing else.
#[verifier::external_body]
fn lift(value: &serde_json::Value) -> (json: Json)
    ensures
        json@ == tree_of(*value),
{
    match value {
        serde_json::Value::Null => Json::Null,
        serde_json::Value::Bool(flag) => Json::Bool(*flag),
        serde_json::Value::Number(number) => Json::Number(number.as_u64()),
        serde_json::Value::String(text) => Json::Text(text.clone()),
        serde_json::Value::Array(items) => Json::Array(items.iter().map(lift).collect()),
        serde_json::Value::Object(members) => Json::Object(
            members.iter().map(|(key, member)| (key.clone(), lift(member))).collect(),
        ),
    }
}

/// The text with which `serde_json` describes a failure.
#[verifier::external_body]
fn describe(error: &serde_json::Error) -> (text: String) {
    error.to_string()
}

/// Reads `bytes` as one JSON document. Where they are none, the error is the
/// text that says what is wrong with them.
pub fn decode(bytes: &[u8]) -> (decoded: Result<Json, String>)
    ensures
        match decoded {
            Ok(json) => json_of(bytes@) == Some(json@),
            Err(_) => json_of(bytes@) is None,
        },
{
    match parse(bytes) {
        Ok(value) => Ok(lift(&value)),
        Err(error) => Err(describe(&error)),
    }
}

} // verus!
