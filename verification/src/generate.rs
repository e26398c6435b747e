//! Asking the generation backend for a reply.
//!
//! The backend is given the whole conversation, a preamble that is written
//! anew for each request, and a limit on the length of its answer. What the
//! commands of the two newest messages have brought is reported to it with
//! the turns of the user. Its answer is a JSON document; the reply is the
//! text of the first element of `content`.

use crate::json::{decode, json_of, Json, JsonView};
use crate::message::{Message, MessageView};
use crate::render::{debug_listing, listing, recent_results, render_recent};
use crate::session::{SessionView, State};
use crate::text::same_text;
use vstd::prelude::*;
use vstd::string::StringExecFns;

verus! {

/// The most tokens that the backend may answer with.
pub const MAX_OUTPUT_TOKENS: u32 = 8096;

/// The text of the failure to get a reply.
pub const GENERATION_FAILED: &'static str = "Failed to generate response";

/// The preamble up to the place of the filesystem root: what is expected of
/// the backend, and the commands it may write, each with its exact form.
pub const PREAMBLE_HEAD: &'static str = "\n            \
    The assistant aims to be an intelligent, thoughtful, and helpful conversational partner.\n            \
    The assistant has access to filesystem commands, if they contribute to the conversation.\n\
    \n            \
    <command-specification>\n            \
    Commands are in XML format and are case-sensitive. Here are the available commands:\n\
    - read-file: Read contents of a file\n  \
    Example: <fs-command><operation>read-file</operation><path>example.txt</path></fs-command>\n\
    \n\
    - write-file: Write content to a file\n  \
    Example: <fs-command><operation>write-file</operation><path>new.txt</path><content>Hello World</content></fs-command>\n\
    \n\
    - list-files: List contents of a directory\n  \
    Example: <fs-command><operation>list-files</operation><path>.</path></fs-command>\n\
    \n\
    - create-dir: Create a new directory\n  \
    Example: <fs-command><operation>create-dir</operation><path>new_folder</path></fs-command>\n\
    \n\
    - delete-file: Delete a file\n  \
    Example: <fs-command><operation>delete-file</operation><path>old.txt</path></fs-command>\n\
    \n\
    - edit-file: Edit content in a file by replacing text\n  \
    Example: <fs-command><operation>edit-file</operation><path>file.txt</path><old_text>text to find</old_text><new_text>replacement text</new_text></fs-command>\n\
    \n\
    - delete-dir: Delete a directory\n  \
    Example: <fs-command><operation>delete-dir</operation><path>old_folder</path></fs-command>\n\
    \n\
    Current filesystem root path: ";

/// The line of the preamble that leads to the permissions.
pub const PREAMBLE_PERMISSIONS: &'static str = "\nCurrent permissions: ";

/// The preamble after the permissions.
pub const PREAMBLE_TAIL: &'static str = "\n\
    \n\
    Remember to:\n\
    1. Be explicit about file operations you're suggesting\n\
    2. Use exact XML command syntax in your suggestions\n\
    3. Consider the current permissions before suggesting operations\n\
    4. Explain what each command will do before suggesting it\n\
    5. Handle operation results appropriately in follow-up messages\n\
    \n\
    Most importantly, if the assistant is writing files, whatever it writes will be written directly to the filesystem without confirmation.\n\
    Be sure to write out only entire files, or information will be lost.\n\
    </command-specification>\n\
    \n\
    Most importantly, the assistant should have fun and enjoy the conversation!\n";

/// One turn of the conversation as the backend is given it.
#[derive(Debug, PartialEq, Eq)]
pub struct Turn {
    pub role: String,
    pub content: String,
}

/// What a `Turn` holds, as sequences.
pub struct TurnView {
    pub role: Seq<char>,
    pub content: Seq<char>,
}

impl DeepView for Turn {
    type V = TurnView;

    open spec fn deep_view(&self) -> TurnView {
        TurnView { role: self.role@, content: self.content@ }
    }
}

impl View for Turn {
    type V = TurnView;

    open spec fn view(&self) -> TurnView {
        self.deep_view()
    }
}

/// A request to the generation backend.
#[derive(Debug, PartialEq, Eq)]
pub struct GenerationRequest {
    pub system: String,
    pub messages: Vec<Turn>,
    pub max_tokens: u32,
}

/// What a `GenerationRequest` holds, as sequences.
pub struct RequestView {
    pub system: Seq<char>,
    pub messages: Seq<TurnView>,
    pub max_tokens: u32,
}

impl DeepView for GenerationRequest {
    type V = RequestView;

    open spec fn deep_view(&self) -> RequestView {
        RequestView {
            system: self.system@,
            messages: self.messages.deep_view(),
            max_tokens: self.max_tokens,
        }
    }
}

impl View for GenerationRequest {
    type V = RequestView;

    open spec fn view(&self) -> RequestView {
        self.deep_view()
    }
}

/// The preamble for a session rooted at `root` that holds `permissions`.
pub open spec fn preamble(root: Seq<char>, permissions: Seq<Seq<char>>) -> Seq<char> {
    PREAMBLE_HEAD@ + root + PREAMBLE_PERMISSIONS@ + debug_listing(permissions) + PREAMBLE_TAIL@
}

/// The turn that stands for `message`: its role and its content, and, for a
/// turn of the user, below the content the report on the last commands,
/// where there is one.
pub open spec fn turn(message: MessageView, report: Seq<char>) -> TurnView {
    TurnView {
        role: message.role,
        content: if message.role == "user"@ && report.len() > 0 {
            message.content + "\n\n"@ + report
        } else {
            message.content
        },
    }
}

/// The turns that stand for `history`, oldest first.
pub open spec fn model_input(history: Seq<MessageView>) -> Seq<TurnView> {
    history.map_values(|message: MessageView| turn(message, recent_results(history)))
}

/// The request that asks for the next reply in `history`.
pub open spec fn request_for(session: SessionView, history: Seq<MessageView>) -> RequestView {
    RequestView {
        system: preamble(session.fs_path, session.permissions),
        messages: model_input(history),
        max_tokens: MAX_OUTPUT_TOKENS,
    }
}

/// The reply that the answer `reply` of the backend carries: the text of
/// `text` in the first element of `content`.
pub open spec fn reply_text(reply: JsonView) -> Option<Seq<char>> {
    match reply.member("content"@) {
        Some(content) => match content.element(0) {
            Some(first) => match first.member("text"@) {
                Some(text) => text.text(),
                None => None,
            },
            None => None,
        },
        None => None,
    }
}

/// The reply that the body of an answer carries, if there is a body, it is a
/// JSON document, and the document carries one.
pub open spec fn body_text(body: Option<Seq<u8>>) -> Option<Seq<char>> {
    match body {
        Some(bytes) => match json_of(bytes) {
            Some(reply) => reply_text(reply),
            None => None,
        },
        None => None,
    }
}

/// The turn that stands for `message`, given the report on the last commands.
fn turn_of(message: &Message, report: &String) -> (turn: Turn)
    ensures
        turn@ == self::turn(message@, report@),
{
    let mut content = message.content.clone();
    if same_text(message.role.as_str(), "user") && !report.as_str().is_empty() {
        content.append("\n\n");
        content.append(report.as_str());
    }
    Turn { role: message.role.clone(), content }
}

impl State {
    /// The preamble of a request: the fixed text, with the root and the
    /// permissions of the session filled in.
    pub fn system_preamble(&self) -> (text: String)
        ensures
            text@ == preamble(self@.fs_path, self@.permissions),
    {
        let mut text = PREAMBLE_HEAD.to_owned();
        text.append(self.fs_path.as_str());
        text.append(PREAMBLE_PERMISSIONS);
        text.append(listing(&self.permissions).as_str());
        text.append(PREAMBLE_TAIL);
        text
    }

    /// The request that asks the backend for the next reply in the
    /// conversation `messages`, oldest message first.
    pub fn generation_request(&self, messages: &Vec<Message>) -> (request: GenerationRequest)
        ensures
            request@ == request_for(self@, messages.deep_view()),
    {
        let report = render_recent(messages);
        let ghost history = messages.deep_view();
        let ghost turns = model_input(history);
        let mut input: Vec<Turn> = Vec::new();
        let mut i: usize = 0;
        while i < messages.len()
            invariant
                i <= messages.len(),
                history == messages.deep_view(),
                turns == model_input(history),
                report@ == recent_results(history),
                input.deep_view() == turns.take(i as int),
            decreases messages.len() - i,
        {
            let ghost before = input.deep_view();
            let next = turn_of(&messages[i], &report);
            input.push(next);
            assert(input.deep_view() =~= before.push(next@));
            i += 1;
        }
        assert(turns.take(i as int) =~= turns);
        GenerationRequest {
            system: self.system_preamble(),
            messages: input,
            max_tokens: MAX_OUTPUT_TOKENS,
        }
    }
}

/// The reply that the answer `reply` of the backend carries.
pub fn response_text(reply: &Json) -> (text: Option<String>)
    ensures
        text.deep_view() == reply_text(reply@),
{
    match reply.member("content") {
        Some(content) => match content.element(0) {
            Some(first) => match first.member("text") {
                Some(text) => match text.as_text() {
                    Some(text) => Some(text.clone()),
                    None => None,
                },
                None => None,
            },
            None => None,
        },
        None => None,
    }
}

/// The reply of the backend, from the body of its answer. Generation has
/// failed where the answer has no body, where the body is no JSON document,
/// and where the document carries no reply.
pub fn read_response(body: &Option<Vec<u8>>) -> (reply: Result<String, String>)
    ensures
        match body_text(body.deep_view()) {
            Some(text) => reply matches Ok(found) && found@ == text,
            None => reply matches Err(error) && error@ == GENERATION_FAILED@,
        },
{
    match body {
        Some(bytes) => {
            assert(bytes.deep_view() =~= bytes@);
            match decode(bytes.as_slice()) {
                Ok(document) => match response_text(&document) {
                    Some(text) => Ok(text),
                    None => Err(GENERATION_FAILED.to_owned()),
                },
                Err(_) => Err(GENERATION_FAILED.to_owned()),
            }
        },
        None => Err(GENERATION_FAILED.to_owned()),
    }
}

} // verus!
