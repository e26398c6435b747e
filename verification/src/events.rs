//! What comes in from the other side of a session.
//!
//! An event is a JSON object whose `type` names its kind. A message that was
//! sent carries its text in `content`; a request to handle a stored message
//! again names the message in `messageId`; a request for the conversation
//! carries nothing. Anything else is no event of the session.

use crate::json::{decode, json_of, Json, JsonView};
use crate::text::same_text;
use vstd::prelude::*;
use vstd::string::StringSliceAdditionalSpecFns;

verus! {

/// An event of the session.
#[derive(Debug, PartialEq, Eq)]
pub enum Inbound {
    /// The user has sent a message with this content.
    SendMessage { content: String },
    /// The stored message with this id is to be handled again.
    RetryMessage { message_id: String },
    /// The conversation is asked for.
    GetMessages,
    /// Nothing that the session knows.
    Unknown,
}

/// What an `Inbound` holds, as sequences.
pub enum InboundView {
    SendMessage { content: Seq<char> },
    RetryMessage { message_id: Seq<char> },
    GetMessages,
    Unknown,
}

impl DeepView for Inbound {
    type V = InboundView;

    open spec fn deep_view(&self) -> InboundView {
        match self {
            Inbound::SendMessage { content } => InboundView::SendMessage { content: content@ },
            Inbound::RetryMessage { message_id } => InboundView::RetryMessage {
                message_id: message_id@,
            },
            Inbound::GetMessages => InboundView::GetMessages,
            Inbound::Unknown => InboundView::Unknown,
        }
    }
}

impl View for Inbound {
    type V = InboundView;

    open spec fn view(&self) -> InboundView {
        self.deep_view()
    }
}

/// The text of the member `key` of `document`, where it has such a member
/// and the member is a string.
pub open spec fn member_text(document: JsonView, key: Seq<char>) -> Option<Seq<char>> {
    match document.member(key) {
        Some(member) => member.text(),
        None => None,
    }
}

/// The event that `document` stands for. A message without `content`, and a
/// request to handle a message again without `messageId`, are no events.
pub open spec fn event_of(document: JsonView) -> InboundView {
    match member_text(document, "type"@) {
        Some(kind) => if kind == "send_message"@ {
            match member_text(document, "content"@) {
                Some(content) => InboundView::SendMessage { content },
                None => InboundView::Unknown,
            }
        } else if kind == "retry_message"@ {
            match member_text(document, "messageId"@) {
                Some(message_id) => InboundView::RetryMessage { message_id },
                None => InboundView::Unknown,
            }
        } else if kind == "get_messages"@ {
            InboundView::GetMessages
        } else {
            InboundView::Unknown
        },
        None => InboundView::Unknown,
    }
}

/// The text of the member `key` of `document`.
fn text_of(document: &Json, key: &str) -> (text: Option<String>)
    ensures
        text.deep_view() == member_text(document@, key@),
{
    match document.member(key) {
        Some(member) => match member.as_text() {
            Some(text) => Some(text.clone()),
            None => None,
        },
        None => None,
    }
}

/// The event that `document` stands for.
pub fn inbound(document: &Json) -> (event: Inbound)
    ensures
        event@ == event_of(document@),
{
    match text_of(document, "type") {
        Some(kind) => {
            if same_text(kind.as_str(), "send_message") {
                match text_of(document, "content") {
                    Some(content) => Inbound::SendMessage { content },
                    None => Inbound::Unknown,
                }
            } else if same_text(kind.as_str(), "retry_message") {
                match text_of(document, "messageId") {
                    Some(message_id) => Inbound::RetryMessage { message_id },
                    None => Inbound::Unknown,
                }
            } else if same_text(kind.as_str(), "get_messages") {
                Inbound::GetMessages
            } else {
                Inbound::Unknown
            }
        },
        None => Inbound::Unknown,
    }
}

/// The event that the text `text` stands for, read from its bytes; none that
/// the session knows where the text is no JSON document.
pub fn read_inbound(text: &str) -> (event: Inbound)
    ensures
        event@ == match json_of(text.spec_bytes()) {
            Some(document) => event_of(document),
            None => InboundView::Unknown,
        },
{
    match decode(text.as_bytes()) {
        Ok(document) => inbound(&document),
        Err(_) => Inbound::Unknown,
    }
}

} // verus!
