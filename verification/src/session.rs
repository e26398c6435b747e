//! A chat session: where its records are stored, which part of the filesystem
//! it may touch and how, and which message is the newest. The rules that
//! depend on the session alone are here: which operations it permits, how it
//! resolves a path, and when a failed message gets another attempt.

use crate::message::{MessageState, MessageStateView, MessageStatus, ProcessingError, MAX_RETRIES};
use crate::text::{contains, same_text, starts_with, text_contains, text_starts_with};
use vstd::prelude::*;
use vstd::string::StringExecFns;

verus! {

/// The state of one session.
#[derive(Debug, PartialEq, Eq)]
pub struct State {
    /// The store that keeps the session's messages.
    pub store_id: String,
    /// The service that carries out filesystem operations, where one is attached.
    pub fs_proxy_id: Option<String>,
    /// The directory that relative paths start from.
    pub fs_path: String,
    /// The capabilities the session holds: `read`, `write`, `delete`.
    pub permissions: Vec<String>,
    /// The id of the newest message of the conversation.
    pub head: Option<String>,
    pub websocket_port: u16,
    pub api_key: String,
}

/// What a `State` holds, as sequences.
pub struct SessionView {
    pub store_id: Seq<char>,
    pub fs_proxy_id: Option<Seq<char>>,
    pub fs_path: Seq<char>,
    pub permissions: Seq<Seq<char>>,
    pub head: Option<Seq<char>>,
    pub websocket_port: u16,
    pub api_key: Seq<char>,
}

impl DeepView for State {
    type V = SessionView;

    open spec fn deep_view(&self) -> SessionView {
        SessionView {
            store_id: self.store_id@,
            fs_proxy_id: self.fs_proxy_id.deep_view(),
            fs_path: self.fs_path@,
            permissions: self.permissions.deep_view(),
            head: self.head.deep_view(),
            websocket_port: self.websocket_port,
            api_key: self.api_key@,
        }
    }
}

impl View for State {
    type V = SessionView;

    open spec fn view(&self) -> SessionView {
        self.deep_view()
    }
}

impl Clone for State {
    fn clone(&self) -> (copy: Self)
        ensures
            copy@ == self@,
    {
        State {
            store_id: self.store_id.clone(),
            fs_proxy_id: self.fs_proxy_id.clone(),
            fs_path: self.fs_path.clone(),
            permissions: self.permissions.clone(),
            head: self.head.clone(),
            websocket_port: self.websocket_port,
            api_key: self.api_key.clone(),
        }
    }
}

/// The capability that `operation` needs. An operation that is not one of the
/// seven known ones has none, and is therefore never permitted.
pub open spec fn required_capability(operation: Seq<char>) -> Option<Seq<char>> {
    if operation == "read-file"@ || operation == "list-files"@ {
        Some("read"@)
    } else if operation == "write-file"@ || operation == "create-dir"@ || operation
        == "edit-file"@ {
        Some("write"@)
    } else if operation == "delete-file"@ || operation == "delete-dir"@ {
        Some("delete"@)
    } else {
        None
    }
}

/// Whether a session that holds `permissions` may carry out `operation`.
pub open spec fn permits(permissions: Seq<Seq<char>>, operation: Seq<char>) -> bool {
    match required_capability(operation) {
        Some(capability) => permissions.contains(capability),
        None => false,
    }
}

/// Where `path` leads for a session rooted at `root`: an absolute path is kept,
/// `.` is the root itself, and any other path is taken below the root.
pub open spec fn resolved(root: Seq<char>, path: Seq<char>) -> Seq<char> {
    if starts_with(path, seq!['/']) {
        path
    } else if path == seq!['.'] {
        root
    } else {
        root + seq!['/'] + path
    }
}

/// Whether the text of a failure shows that the backend was overloaded or was
/// throttling, so that the same request may succeed later.
pub open spec fn transient(error: Seq<char>) -> bool {
    contains(error, "529"@) || contains(error, "rate_limit"@) || contains(error, "overloaded"@)
}

/// Whether a message in state `state` gets another attempt after a failure
/// with the text `error`.
pub open spec fn retryable(state: MessageStateView, error: Seq<char>) -> bool {
    state.retries < MAX_RETRIES && transient(error)
}

/// The state of a message after a failure with the text `error`: pending
/// again with one more retry counted, or failed for good.
pub open spec fn classified(state: MessageStateView, error: Seq<char>) -> MessageStateView {
    if retryable(state, error) {
        MessageStateView {
            status: MessageStatus::Pending,
            retries: (state.retries + 1) as u32,
            last_error: Some(error),
            ..state
        }
    } else {
        MessageStateView { status: MessageStatus::Failed, last_error: Some(error), ..state }
    }
}

/// The state of a message after a failure that does (`again`) or does not
/// call for another attempt. The text of the last error is kept.
pub open spec fn rescheduled(state: MessageStateView, again: bool) -> MessageStateView {
    if again && state.retries < MAX_RETRIES {
        MessageStateView {
            status: MessageStatus::Pending,
            retries: (state.retries + 1) as u32,
            ..state
        }
    } else {
        MessageStateView { status: MessageStatus::Failed, ..state }
    }
}

/// A message is never sent back more than `MAX_RETRIES` times: a count that
/// is within the limit stays within it.
pub proof fn lemma_retries_bounded(state: MessageStateView, error: Seq<char>)
    requires
        state.well_formed(),
    ensures
        classified(state, error).well_formed(),
{
}

/// A message is sent back only after a transient failure. Any other failure
/// leaves it failed, whatever its count of retries, and leaves the count as
/// it was. Either way the failure is recorded, and the message is left in no
/// status that is only passed through.
pub proof fn lemma_only_transient_is_retried(state: MessageStateView, error: Seq<char>)
    ensures
        classified(state, error).status == MessageStatus::Pending ==> transient(error)
            && classified(state, error).retries == state.retries + 1,
        !transient(error) ==> classified(state, error).status == MessageStatus::Failed
            && classified(state, error).retries == state.retries,
        classified(state, error).last_error == Some(error),
        classified(state, error).settled(),
{
}

/// Whether `tag` is one of `list`.
pub fn holds(list: &Vec<String>, tag: &str) -> (found: bool)
    ensures
        found == list.deep_view().contains(tag@),
{
    let mut i: usize = 0;
    while i < list.len()
        invariant
            i <= list.len(),
            forall|j: int| 0 <= j < i ==> list.deep_view()[j] != tag@,
        decreases list.len() - i,
    {
        if same_text(list[i].as_str(), tag) {
            assert(list.deep_view()[i as int] == tag@);
            return true;
        }
        i += 1;
    }
    false
}

impl State {
    /// Whether the session may carry out `operation`. An unknown operation is
    /// never permitted, whatever the session holds.
    pub fn allowed_operation(&self, operation: &str) -> (allowed: bool)
        ensures
            allowed == permits(self@.permissions, operation@),
    {
        if same_text(operation, "read-file") || same_text(operation, "list-files") {
            holds(&self.permissions, "read")
        } else if same_text(operation, "write-file") || same_text(operation, "create-dir")
            || same_text(operation, "edit-file") {
            holds(&self.permissions, "write")
        } else if same_text(operation, "delete-file") || same_text(operation, "delete-dir") {
            holds(&self.permissions, "delete")
        } else {
            false
        }
    }

    /// The path that an operation on `relative_path` is sent out with.
    pub fn resolve_path(&self, relative_path: &str) -> (path: String)
        ensures
            path@ == resolved(self@.fs_path, relative_path@),
    {
        proof {
            reveal_strlit("/");
            reveal_strlit(".");
            assert("/"@ =~= seq!['/']);
            assert("."@ =~= seq!['.']);
        }
        if text_starts_with(relative_path, "/") {
            relative_path.to_owned()
        } else if same_text(relative_path, ".") {
            self.fs_path.clone()
        } else {
            let mut path = self.fs_path.clone();
            path.append("/");
            path.append(relative_path);
            path
        }
    }

    /// Takes note of what has become of the executor. After an event of the
    /// kind `terminate` the session has no executor any more; an event of any
    /// other kind changes nothing.
    pub fn handle_send(&mut self, kind: &str)
        ensures
            final(self)@ == if kind@ == "terminate"@ {
                SessionView { fs_proxy_id: None, ..old(self)@ }
            } else {
                old(self)@
            },
    {
        if same_text(kind, "terminate") {
            self.fs_proxy_id = None;
        }
    }

    /// Whether a message in state `message_state` gets another attempt after a
    /// failure with the text `error`: only while it has been sent back fewer
    /// than `MAX_RETRIES` times, and only after a transient failure.
    pub fn should_retry(&self, message_state: &MessageState, error: &str) -> (again: bool)
        ensures
            again == retryable(message_state@, error@),
    {
        message_state.retries < MAX_RETRIES && (text_contains(error, "529") || text_contains(
            error,
            "rate_limit",
        ) || text_contains(error, "overloaded"))
    }

    /// Records the failure `error` in `message_state` and decides what becomes
    /// of the message: pending again, with one more retry counted, or failed.
    pub fn handle_retry(&self, message_state: &mut MessageState, error: &str)
        ensures
            final(message_state)@ == classified(old(message_state)@, error@),
    {
        let again = self.should_retry(message_state, error);
        message_state.last_error = Some(error.to_owned());
        if again {
            message_state.status = MessageStatus::Pending;
            message_state.retries += 1;
        } else {
            message_state.status = MessageStatus::Failed;
        }
    }

    /// As `handle_retry`, for an error text that the caller gives away.
    pub fn handle_error(&self, message_state: &mut MessageState, error: String)
        ensures
            final(message_state)@ == classified(old(message_state)@, error@),
    {
        let again = self.should_retry(message_state, error.as_str());
        message_state.last_error = Some(error);
        if again {
            message_state.status = MessageStatus::Pending;
            message_state.retries += 1;
        } else {
            message_state.status = MessageStatus::Failed;
        }
    }

    /// Decides what becomes of a message after the failure `error`, going by
    /// whether the error is marked as one that another attempt may cure.
    pub fn schedule_retry(&self, message_state: &mut MessageState, error: &ProcessingError)
        ensures
            final(message_state)@ == rescheduled(old(message_state)@, error.retryable),
    {
        if error.retryable && message_state.retries < MAX_RETRIES {
            message_state.status = MessageStatus::Pending;
            message_state.retries += 1;
        } else {
            message_state.status = MessageStatus::Failed;
        }
    }
}

} // verus!
