//! What the record store answers.
//!
//! The store keeps what it is given under an id of its own choosing and never
//! changes a record. Its replies are JSON objects: `status` says whether the
//! request went well, `key` carries the id of a new record, and `value` the
//! bytes of a record that was asked for, as an array of numbers.

use crate::json::{decode, json_of, Json, JsonView};
use crate::text::same_text;
use vstd::prelude::*;

verus! {

/// Why a reply of the store gives nothing.
#[derive(Debug, PartialEq, Eq)]
pub enum StoreError {
    /// The reply is no JSON document; the text says what is wrong with it.
    Malformed(String),
    /// The store did not report success for a record that was to be saved.
    NotSaved,
    /// The store reported success and named no id.
    NoKey,
    /// The store did not report success for a record that was asked for, or it
    /// handed nothing back.
    NotLoaded,
    /// What the store handed back is no array.
    NotBytes,
}

/// The kinds of `StoreError`.
#[derive(Debug, Clone, Copy, PartialEq, Eq, Structural)]
pub enum Fault {
    Malformed,
    NotSaved,
    NoKey,
    NotLoaded,
    NotBytes,
}

impl StoreError {
    /// The kind of the error.
    pub open spec fn fault(self) -> Fault {
        match self {
            StoreError::Malformed(_) => Fault::Malformed,
            StoreError::NotSaved => Fault::NotSaved,
            StoreError::NoKey => Fault::NoKey,
            StoreError::NotLoaded => Fault::NotLoaded,
            StoreError::NotBytes => Fault::NotBytes,
        }
    }

    /// The kind of the error.
    pub fn kind(&self) -> (kind: Fault)
        ensures
            kind == self.fault(),
    {
        match self {
            StoreError::Malformed(_) => Fault::Malformed,
            StoreError::NotSaved => Fault::NotSaved,
            StoreError::NoKey => Fault::NoKey,
            StoreError::NotLoaded => Fault::NotLoaded,
            StoreError::NotBytes => Fault::NotBytes,
        }
    }

    /// The error in words.
    pub fn message(&self) -> (text: String)
        ensures
            match self {
                StoreError::Malformed(reason) => text@ == reason@,
                StoreError::NotSaved => text@ == "Failed to save message"@,
                StoreError::NoKey => text@ == "No key in response"@,
                StoreError::NotLoaded => text@ == "Failed to load message"@,
                StoreError::NotBytes => text@ == "Expected byte array"@,
            },
    {
        match self {
            StoreError::Malformed(reason) => reason.clone(),
            StoreError::NotSaved => "Failed to save message".to_owned(),
            StoreError::NoKey => "No key in response".to_owned(),
            StoreError::NotLoaded => "Failed to load message".to_owned(),
            StoreError::NotBytes => "Expected byte array".to_owned(),
        }
    }
}

/// Whether `reply` reports success: its `status` is the text `ok`.
pub open spec fn reports_success(reply: JsonView) -> bool {
    reply.member("status"@) matches Some(status) && status.text() == Some("ok"@)
}

/// The byte that an element of `value` stands for: the number, cut down to
/// its lowest eight bits; an element that is no unsigned integer counts as 0.
pub open spec fn byte_of(item: JsonView) -> u8 {
    match item.number() {
        Some(number) => (number % 256) as u8,
        None => 0,
    }
}

/// The bytes that the array `items` stands for.
pub open spec fn bytes_of(items: Seq<JsonView>) -> Seq<u8> {
    items.map_values(|item: JsonView| byte_of(item))
}

/// What the reply to a request to save a record gives: the id of the new
/// record, which is the text of `key`, if the reply reports success.
pub open spec fn saved_key(reply: JsonView) -> Result<Seq<char>, Fault> {
    if !reports_success(reply) {
        Err(Fault::NotSaved)
    } else {
        match reply.member("key"@) {
            Some(JsonView::Text(id)) => Ok(id),
            _ => Err(Fault::NoKey),
        }
    }
}

/// What the reply to a request for a record gives: the bytes of the record,
/// which are the elements of the array `value`, if the reply reports success.
pub open spec fn loaded_bytes(reply: JsonView) -> Result<Seq<u8>, Fault> {
    if !reports_success(reply) {
        Err(Fault::NotLoaded)
    } else {
        match reply.member("value"@) {
            Some(JsonView::Array(items)) => Ok(bytes_of(items)),
            Some(_) => Err(Fault::NotBytes),
            None => Err(Fault::NotLoaded),
        }
    }
}

/// The id of a key result, or the kind of its error.
pub open spec fn key_view(key: Result<String, StoreError>) -> Result<Seq<char>, Fault> {
    match key {
        Ok(id) => Ok(id@),
        Err(error) => Err(error.fault()),
    }
}

/// The bytes of a payload result, or the kind of its error.
pub open spec fn payload_view(payload: Result<Vec<u8>, StoreError>) -> Result<Seq<u8>, Fault> {
    match payload {
        Ok(bytes) => Ok(bytes@),
        Err(error) => Err(error.fault()),
    }
}

/// Whether `reply` reports success.
fn succeeded(reply: &Json) -> (ok: bool)
    ensures
        ok == reports_success(reply@),
{
    match reply.member("status") {
        Some(status) => match status.as_text() {
            Some(text) => same_text(text.as_str(), "ok"),
            None => false,
        },
        None => false,
    }
}

/// The id under which the store has saved a record, from the store's reply.
/// The reply must report success and name the id in `key`.
pub fn put_reply_key(reply: &Json) -> (key: Result<String, StoreError>)
    ensures
        key_view(key) == saved_key(reply@),
{
    if !succeeded(reply) {
        return Err(StoreError::NotSaved);
    }
    match reply.member("key") {
        Some(key) => match key.as_text() {
            Some(id) => Ok(id.clone()),
            None => Err(StoreError::NoKey),
        },
        None => Err(StoreError::NoKey),
    }
}

/// The bytes of the record that was asked for, from the store's reply. The
/// reply must report success and carry the bytes, as an array, in `value`.
pub fn get_reply_payload(reply: &Json) -> (payload: Result<Vec<u8>, StoreError>)
    ensures
        payload_view(payload) == loaded_bytes(reply@),
{
    if !succeeded(reply) {
        return Err(StoreError::NotLoaded);
    }
    match reply.member("value") {
        Some(value) => match value.as_items() {
            Some(items) => {
                let ghost all = items.deep_view();
                let mut bytes: Vec<u8> = Vec::new();
                let mut i: usize = 0;
                while i < items.len()
                    invariant
                        i <= items.len(),
                        all == items.deep_view(),
                        bytes@ == bytes_of(all).take(i as int),
                    decreases items.len() - i,
                {
                    let byte: u8 = match items[i].as_number() {
                        Some(number) => (number % 256) as u8,
                        None => 0,
                    };
                    bytes.push(byte);
                    i += 1;
                }
                assert(bytes_of(all).take(i as int) =~= bytes_of(all));
                Ok(bytes)
            },
            None => Err(StoreError::NotBytes),
        },
        None => Err(StoreError::NotLoaded),
    }
}

/// The id under which the store has saved a record, from the bytes of the
/// store's reply. Bytes that are no JSON document give `Malformed`.
pub fn read_put_reply(bytes: &[u8]) -> (key: Result<String, StoreError>)
    ensures
        key_view(key) == match json_of(bytes@) {
            Some(reply) => saved_key(reply),
            None => Err(Fault::Malformed),
        },
{
    match decode(bytes) {
        Ok(reply) => put_reply_key(&reply),
        Err(reason) => Err(StoreError::Malformed(reason)),
    }
}

/// The bytes of the record that was asked for, from the bytes of the store's
/// reply. Bytes that are no JSON document give `Malformed`.
pub fn read_get_reply(bytes: &[u8]) -> (payload: Result<Vec<u8>, StoreError>)
    ensures
        payload_view(payload) == match json_of(bytes@) {
            Some(reply) => loaded_bytes(reply),
            None => Err(Fault::Malformed),
        },
{
    match decode(bytes) {
        Ok(reply) => get_reply_payload(&reply),
        Err(reason) => Err(StoreError::Malformed(reason)),
    }
}

} // verus!
