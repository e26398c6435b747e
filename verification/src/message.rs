//! The records of a conversation: messages, the filesystem commands they carry,
//! the results of those commands, and the state of a message on its way through
//! the pipeline.

use vstd::prelude::*;

verus! {

/// How often a message may be sent back for another attempt.
pub const MAX_RETRIES: u32 = 3;

/// A filesystem operation that a message asks for.
#[derive(Debug, PartialEq, Eq)]
pub struct FsCommand {
    pub operation: String,
    pub path: String,
    pub content: Option<String>,
    pub old_text: Option<String>,
    pub new_text: Option<String>,
}

/// What an `FsCommand` holds, as sequences of characters.
pub struct CommandView {
    pub operation: Seq<char>,
    pub path: Seq<char>,
    pub content: Option<Seq<char>>,
    pub old_text: Option<Seq<char>>,
    pub new_text: Option<Seq<char>>,
}

impl DeepView for FsCommand {
    type V = CommandView;

    open spec fn deep_view(&self) -> CommandView {
        CommandView {
            operation: self.operation@,
            path: self.path@,
            content: self.content.deep_view(),
            old_text: self.old_text.deep_view(),
            new_text: self.new_text.deep_view(),
        }
    }
}

impl View for FsCommand {
    type V = CommandView;

    open spec fn view(&self) -> CommandView {
        self.deep_view()
    }
}

impl Clone for FsCommand {
    fn clone(&self) -> (copy: Self)
        ensures
            copy@ == self@,
    {
        FsCommand {
            operation: self.operation.clone(),
            path: self.path.clone(),
            content: self.content.clone(),
            old_text: self.old_text.clone(),
            new_text: self.new_text.clone(),
        }
    }
}

/// The outcome of one command.
#[derive(Debug, PartialEq, Eq)]
pub struct FsResult {
    pub success: bool,
    pub operation: String,
    pub path: String,
    pub data: Option<String>,
    pub error: Option<String>,
}

/// What an `FsResult` holds, as sequences of characters.
pub struct ResultView {
    pub success: bool,
    pub operation: Seq<char>,
    pub path: Seq<char>,
    pub data: Option<Seq<char>>,
    pub error: Option<Seq<char>>,
}

impl DeepView for FsResult {
    type V = ResultView;

    open spec fn deep_view(&self) -> ResultView {
        ResultView {
            success: self.success,
            operation: self.operation@,
            path: self.path@,
            data: self.data.deep_view(),
            error: self.error.deep_view(),
        }
    }
}

impl View for FsResult {
    type V = ResultView;

    open spec fn view(&self) -> ResultView {
        self.deep_view()
    }
}

impl Clone for FsResult {
    fn clone(&self) -> (copy: Self)
        ensures
            copy@ == self@,
    {
        FsResult {
            success: self.success,
            operation: self.operation.clone(),
            path: self.path.clone(),
            data: self.data.clone(),
            error: self.error.clone(),
        }
    }
}

/// One turn of a conversation. A stored message is never changed: what looks
/// like a change is a new record under a new id.
#[derive(Debug, PartialEq, Eq)]
pub struct Message {
    pub role: String,
    pub content: String,
    pub parent: Option<String>,
    pub id: Option<String>,
    pub fs_commands: Option<Vec<FsCommand>>,
    pub fs_results: Option<Vec<FsResult>>,
}

/// What a `Message` holds, as sequences.
pub struct MessageView {
    pub role: Seq<char>,
    pub content: Seq<char>,
    pub parent: Option<Seq<char>>,
    pub id: Option<Seq<char>>,
    pub fs_commands: Option<Seq<CommandView>>,
    pub fs_results: Option<Seq<ResultView>>,
}

impl MessageView {
    /// The same message under the id `id`.
    pub open spec fn with_id(self, id: Seq<char>) -> MessageView {
        MessageView { id: Some(id), ..self }
    }

    /// Results, where there are any, answer the commands one for one and in order.
    pub open spec fn well_formed(self) -> bool {
        self.fs_results matches Some(results) ==> {
            &&& self.fs_commands matches Some(commands)
            &&& results.len() == commands.len()
            &&& forall|i: int|
                0 <= i < results.len() ==> answers(#[trigger] commands[i], #[trigger] results[i])
        }
    }
}

/// `result` names the operation and the path of `command`.
pub open spec fn answers(command: CommandView, result: ResultView) -> bool {
    result.operation == command.operation && result.path == command.path
}

impl DeepView for Message {
    type V = MessageView;

    open spec fn deep_view(&self) -> MessageView {
        MessageView {
            role: self.role@,
            content: self.content@,
            parent: self.parent.deep_view(),
            id: self.id.deep_view(),
            fs_commands: self.fs_commands.deep_view(),
            fs_results: self.fs_results.deep_view(),
        }
    }
}

impl View for Message {
    type V = MessageView;

    open spec fn view(&self) -> MessageView {
        self.deep_view()
    }
}

impl Clone for Message {
    fn clone(&self) -> (copy: Self)
        ensures
            copy@ == self@,
    {
        let fs_commands = match &self.fs_commands {
            Some(commands) => Some(copy_commands(commands)),
            None => None,
        };
        let fs_results = match &self.fs_results {
            Some(results) => Some(copy_results(results)),
            None => None,
        };
        Message {
            role: self.role.clone(),
            content: self.content.clone(),
            parent: self.parent.clone(),
            id: self.id.clone(),
            fs_commands,
            fs_results,
        }
    }
}

impl Message {
    /// A message that has not been stored yet: it has no id, no commands and no results.
    pub fn new(role: String, content: String, parent: Option<String>) -> (message: Self)
        ensures
            message@ == (MessageView {
                role: role@,
                content: content@,
                parent: parent.deep_view(),
                id: None,
                fs_commands: None,
                fs_results: None,
            }),
            message@.well_formed(),
    {
        Message { role, content, parent, id: None, fs_commands: None, fs_results: None }
    }

    /// The same message under the id that the store gave it.
    pub fn with_id(self, id: String) -> (message: Self)
        ensures
            message@ == self@.with_id(id@),
    {
        let mut message = self;
        message.id = Some(id);
        message
    }
}

/// A copy of `commands`.
pub fn copy_commands(commands: &Vec<FsCommand>) -> (copy: Vec<FsCommand>)
    ensures
        copy.deep_view() == commands.deep_view(),
{
    commands.clone()
}

/// A copy of `results`.
pub fn copy_results(results: &Vec<FsResult>) -> (copy: Vec<FsResult>)
    ensures
        copy.deep_view() == results.deep_view(),
{
    results.clone()
}

/// Where a message stands in the pipeline. `ProcessingCommands` and
/// `GeneratingResponse` are passed through while a message is handled; a
/// message whose handling has ended is `Completed`, `Failed`, or `Pending`
/// again, waiting for another attempt.
#[derive(Debug, Clone, Copy, PartialEq, Eq, Structural)]
pub enum MessageStatus {
    Pending,
    ProcessingCommands,
    GeneratingResponse,
    Completed,
    Failed,
}

/// A message on its way through the pipeline.
#[derive(Debug, PartialEq, Eq)]
pub struct MessageState {
    pub message: Message,
    pub status: MessageStatus,
    pub retries: u32,
    pub last_error: Option<String>,
}

/// What a `MessageState` holds, as sequences.
pub struct MessageStateView {
    pub message: MessageView,
    pub status: MessageStatus,
    pub retries: u32,
    pub last_error: Option<Seq<char>>,
}

impl MessageStateView {
    /// The message has not been sent back more often than `MAX_RETRIES` times.
    pub open spec fn well_formed(self) -> bool {
        self.retries <= MAX_RETRIES
    }

    /// Handling has ended: the status is none of those that are only passed through.
    pub open spec fn settled(self) -> bool {
        self.status != MessageStatus::ProcessingCommands && self.status
            != MessageStatus::GeneratingResponse
    }
}

impl DeepView for MessageState {
    type V = MessageStateView;

    open spec fn deep_view(&self) -> MessageStateView {
        MessageStateView {
            message: self.message@,
            status: self.status,
            retries: self.retries,
            last_error: self.last_error.deep_view(),
        }
    }
}

impl View for MessageState {
    type V = MessageStateView;

    open spec fn view(&self) -> MessageStateView {
        self.deep_view()
    }
}

impl Clone for MessageState {
    fn clone(&self) -> (copy: Self)
        ensures
            copy@ == self@,
    {
        MessageState {
            message: self.message.clone(),
            status: self.status,
            retries: self.retries,
            last_error: self.last_error.clone(),
        }
    }
}

impl MessageState {
    /// The state of a message that enters the pipeline: pending, never retried,
    /// no error.
    pub fn new(message: Message) -> (state: Self)
        ensures
            state@ == (MessageStateView {
                message: message@,
                status: MessageStatus::Pending,
                retries: 0,
                last_error: None,
            }),
            state@.well_formed(),
    {
        MessageState { message, status: MessageStatus::Pending, retries: 0, last_error: None }
    }
}

/// A failure as the pipeline's callers see it: its text, and whether another
/// attempt may help.
#[derive(Debug, PartialEq, Eq)]
pub struct ProcessingError {
    pub message: String,
    pub retryable: bool,
}

impl ProcessingError {
    /// The error with the text `message`. Nothing is known of its cause, so it
    /// does not count as one that another attempt may cure.
    pub fn from(message: String) -> (error: Self)
        ensures
            error.message@ == message@,
            !error.retryable,
    {
        ProcessingError { message, retryable: false }
    }
}

} // verus!
