//! The way of a message through the session.
//!
//! A message that carries commands has them carried out first, and is saved
//! again with their results. A message of the user is then answered: the
//! history is put together, the backend is asked for a reply, the commands
//! that the reply holds are carried out, and the reply is saved as the newest
//! message. A failure on the way ends the handling; the message is then
//! pending again or failed, as the text of the failure decides.
//!
//! The library does none of the outside work itself. `process_message` is
//! one step: it takes the event that ended the last piece of outside work and
//! returns the next piece to do, until it returns `Completed` or `Failed`.

use crate::dispatch::{Call, CallView, Delivery, DeliveryView, Dispatch, DispatchView};
use crate::generate::{request_for, GenerationRequest, RequestView};
use crate::history::{HistoryWalk, WalkView};
use crate::message::{
    copy_commands, CommandView, FsCommand, Message, MessageState, MessageStateView, MessageStatus,
    MessageView,
};
use crate::parser::{commands_in, parse_fs_commands};
use crate::session::{classified, SessionView, State};
use crate::text::same_text;
use vstd::prelude::*;

verus! {

/// The text of the failure to save a reply.
pub const REPLY_NOT_SAVED: &'static str = "Failed to save AI message";

/// What has ended outside the library.
#[derive(Debug, PartialEq, Eq)]
pub enum Event {
    /// Nothing yet: the handling of the message starts.
    Begin,
    /// The call to the executor has ended.
    Executed(Delivery),
    /// The store has saved the message and given it this id, or has not
    /// saved it, for the reason that the text gives.
    Saved(Result<String, String>),
    /// The store has handed out the record that was asked for, or has not.
    Loaded(Result<Message, String>),
    /// The backend has replied with this text, or has not.
    Generated(Result<String, String>),
}

/// What is to be done outside the library next.
#[derive(Debug, PartialEq, Eq)]
pub enum Action {
    /// Make this call to the executor, and come back with `Executed`.
    Execute(Call),
    /// Save this message, and come back with `Saved`.
    Save(Message),
    /// Load the record with this id, and come back with `Loaded`.
    Load(String),
    /// Ask the backend for a reply, and come back with `Generated`.
    Generate(GenerationRequest),
    /// Nothing: the message has been handled.
    Completed,
    /// Nothing: the handling has failed, for the reason that the text gives.
    Failed(String),
    /// Nothing: the event is not the one that was awaited, and was passed over.
    Ignored,
}

/// How far the handling of a message has come.
#[derive(Debug, PartialEq, Eq)]
pub enum Phase {
    /// A new message is being saved for the first time.
    Submitting,
    /// The message is stored, and its handling can begin.
    Ready,
    /// A command of the message is with the executor.
    Running { dispatch: Dispatch },
    /// The message is being saved again, with the results of its commands.
    Resaving,
    /// A record of the history is being loaded.
    Assembling { walk: HistoryWalk },
    /// The backend is being asked for a reply.
    Generating,
    /// A command of the reply is with the executor.
    Answering { reply: Message, dispatch: Dispatch },
    /// The reply is being saved.
    Storing { reply: Message },
    /// The handling has ended.
    Finished,
}

/// What an `Event` holds, as sequences.
pub enum EventView {
    Begin,
    Executed(DeliveryView),
    Saved(Result<Seq<char>, Seq<char>>),
    Loaded(Result<MessageView, Seq<char>>),
    Generated(Result<Seq<char>, Seq<char>>),
}

/// What an `Action` holds, as sequences.
pub enum ActionView {
    Execute(CallView),
    Save(MessageView),
    Load(Seq<char>),
    Generate(RequestView),
    Completed,
    Failed(Seq<char>),
    Ignored,
}

/// What a `Phase` holds, as sequences.
pub enum PhaseView {
    Submitting,
    Ready,
    Running { dispatch: DispatchView },
    Resaving,
    Assembling { walk: WalkView },
    Generating,
    Answering { reply: MessageView, dispatch: DispatchView },
    Storing { reply: MessageView },
    Finished,
}

/// What a text result holds, as sequences.
pub open spec fn text_result_view(result: Result<String, String>) -> Result<Seq<char>, Seq<char>> {
    match result {
        Ok(text) => Ok(text@),
        Err(error) => Err(error@),
    }
}

impl DeepView for Event {
    type V = EventView;

    open spec fn deep_view(&self) -> EventView {
        match self {
            Event::Begin => EventView::Begin,
            Event::Executed(delivery) => EventView::Executed(delivery@),
            Event::Saved(result) => EventView::Saved(text_result_view(*result)),
            Event::Loaded(result) => EventView::Loaded(
                match result {
                    Ok(record) => Ok(record@),
                    Err(error) => Err(error@),
                },
            ),
            Event::Generated(result) => EventView::Generated(text_result_view(*result)),
        }
    }
}

impl View for Event {
    type V = EventView;

    open spec fn view(&self) -> EventView {
        self.deep_view()
    }
}

impl DeepView for Action {
    type V = ActionView;

    open spec fn deep_view(&self) -> ActionView {
        match self {
            Action::Execute(call) => ActionView::Execute(call@),
            Action::Save(message) => ActionView::Save(message@),
            Action::Load(id) => ActionView::Load(id@),
            Action::Generate(request) => ActionView::Generate(request@),
            Action::Completed => ActionView::Completed,
            Action::Failed(error) => ActionView::Failed(error@),
            Action::Ignored => ActionView::Ignored,
        }
    }
}

impl View for Action {
    type V = ActionView;

    open spec fn view(&self) -> ActionView {
        self.deep_view()
    }
}

impl DeepView for Phase {
    type V = PhaseView;

    open spec fn deep_view(&self) -> PhaseView {
        match self {
            Phase::Submitting => PhaseView::Submitting,
            Phase::Ready => PhaseView::Ready,
            Phase::Running { dispatch } => PhaseView::Running { dispatch: dispatch@ },
            Phase::Resaving => PhaseView::Resaving,
            Phase::Assembling { walk } => PhaseView::Assembling { walk: walk@ },
            Phase::Generating => PhaseView::Generating,
            Phase::Answering { reply, dispatch } => PhaseView::Answering {
                reply: reply@,
                dispatch: dispatch@,
            },
            Phase::Storing { reply } => PhaseView::Storing { reply: reply@ },
            Phase::Finished => PhaseView::Finished,
        }
    }
}

impl View for Phase {
    type V = PhaseView;

    open spec fn view(&self) -> PhaseView {
        self.deep_view()
    }
}

/// Where a step leaves the session and the message, and what it asks for.
pub struct Outcome {
    pub session: SessionView,
    pub state: MessageStateView,
    pub phase: PhaseView,
    pub action: ActionView,
}

/// The message state with the status `status`.
pub open spec fn with_status(state: MessageStateView, status: MessageStatus) -> MessageStateView {
    MessageStateView { status, ..state }
}

/// The message state after the store has given its message the id `id`.
pub open spec fn stored_as(state: MessageStateView, id: Seq<char>) -> MessageStateView {
    MessageStateView { message: state.message.with_id(id), ..state }
}

/// The session after the message with the id `id` has become its newest.
pub open spec fn headed(session: SessionView, id: Seq<char>) -> SessionView {
    SessionView { head: Some(id), ..session }
}

/// The dispatch that starts on `commands`.
pub open spec fn fresh(commands: Seq<CommandView>) -> DispatchView {
    DispatchView { commands, results: Seq::empty() }
}

/// The reply to the message `to`, with the text `text`, before it is stored:
/// a message of the assistant whose parent is `to`, with the commands that
/// the text holds, if it holds any.
pub open spec fn reply_to(to: MessageView, text: Seq<char>) -> MessageView {
    MessageView {
        role: "assistant"@,
        content: text,
        parent: to.id,
        id: None,
        fs_commands: if commands_in(text).len() > 0 {
            Some(commands_in(text))
        } else {
            None
        },
        fs_results: None,
    }
}

/// The handling ends in failure: the failure is recorded, and its text decides
/// whether the message is pending again or failed.
pub open spec fn failing(session: SessionView, state: MessageStateView, error: Seq<char>) -> Outcome {
    Outcome {
        session,
        state: classified(state, error),
        phase: PhaseView::Finished,
        action: ActionView::Failed(error),
    }
}

/// The walk goes on: the next record is asked for, or, at the end of the
/// walk, the backend is asked for a reply to the history that was found.
pub open spec fn walking(session: SessionView, state: MessageStateView, walk: WalkView) -> Outcome {
    match walk.next {
        Some(id) => Outcome {
            session,
            state,
            phase: PhaseView::Assembling { walk },
            action: ActionView::Load(id),
        },
        None => Outcome {
            session,
            state,
            phase: PhaseView::Generating,
            action: ActionView::Generate(request_for(session, walk.history())),
        },
    }
}

/// The commands of the message are done with, or there were none: a message
/// of the user is answered, starting with the walk through the history; the
/// handling of any other message is complete.
pub open spec fn responding(session: SessionView, state: MessageStateView) -> Outcome {
    if state.message.role == "user"@ {
        walking(
            session,
            with_status(state, MessageStatus::GeneratingResponse),
            WalkView::begin(session.head),
        )
    } else {
        Outcome {
            session,
            state: with_status(state, MessageStatus::Completed),
            phase: PhaseView::Finished,
            action: ActionView::Completed,
        }
    }
}

/// The commands of the message go on: the next call is asked for, or, when
/// every command has its result, the message is saved again with the results.
pub open spec fn running(session: SessionView, state: MessageStateView, dispatch: DispatchView) -> Outcome {
    let settled = dispatch.settled(session);
    match settled.pending(session) {
        Some(call) => Outcome {
            session,
            state,
            phase: PhaseView::Running { dispatch: settled },
            action: ActionView::Execute(call),
        },
        None => {
            let message = MessageView { fs_results: Some(settled.results), ..state.message };
            Outcome {
                session,
                state: MessageStateView { message, ..state },
                phase: PhaseView::Resaving,
                action: ActionView::Save(message),
            }
        },
    }
}

/// The commands of the reply go on: the next call is asked for, or, when
/// every command has its result, the reply is saved with the results.
pub open spec fn answering(
    session: SessionView,
    state: MessageStateView,
    reply: MessageView,
    dispatch: DispatchView,
) -> Outcome {
    let settled = dispatch.settled(session);
    match settled.pending(session) {
        Some(call) => Outcome {
            session,
            state,
            phase: PhaseView::Answering { reply, dispatch: settled },
            action: ActionView::Execute(call),
        },
        None => {
            let reply = MessageView { fs_results: Some(settled.results), ..reply };
            Outcome {
                session,
                state,
                phase: PhaseView::Storing { reply },
                action: ActionView::Save(reply),
            }
        },
    }
}

/// The handling of a stored message begins: its commands are carried out, if
/// it has any, and else it is answered.
pub open spec fn beginning(session: SessionView, state: MessageStateView) -> Outcome {
    match state.message.fs_commands {
        Some(commands) => running(
            session,
            with_status(state, MessageStatus::ProcessingCommands),
            fresh(commands),
        ),
        None => responding(session, state),
    }
}

/// The backend has replied with `text`: the commands that the reply holds are
/// carried out, if it holds any, and else the reply is saved as it is.
pub open spec fn replying(session: SessionView, state: MessageStateView, text: Seq<char>) -> Outcome {
    let reply = reply_to(state.message, text);
    match reply.fs_commands {
        Some(commands) => answering(session, state, reply, fresh(commands)),
        None => Outcome {
            session,
            state,
            phase: PhaseView::Storing { reply },
            action: ActionView::Save(reply),
        },
    }
}

/// An event that is not awaited changes nothing.
pub open spec fn ignoring(session: SessionView, state: MessageStateView, phase: PhaseView) -> Outcome {
    Outcome { session, state, phase, action: ActionView::Ignored }
}

/// One step of the pipeline: where the event `event`, coming in phase
/// `phase`, leaves the session and the message, and what is to be done next.
pub open spec fn step(
    session: SessionView,
    state: MessageStateView,
    phase: PhaseView,
    event: EventView,
) -> Outcome {
    match phase {
        PhaseView::Submitting => match event {
            EventView::Saved(Ok(id)) => beginning(headed(session, id), stored_as(state, id)),
            EventView::Saved(Err(error)) => failing(session, state, error),
            _ => ignoring(session, state, phase),
        },
        PhaseView::Ready => match event {
            EventView::Begin => beginning(session, state),
            _ => ignoring(session, state, phase),
        },
        PhaseView::Running { dispatch } => match event {
            EventView::Executed(delivery) => running(
                session,
                state,
                dispatch.supplied(session, delivery),
            ),
            _ => ignoring(session, state, phase),
        },
        PhaseView::Resaving => match event {
            EventView::Saved(Ok(id)) => responding(headed(session, id), stored_as(state, id)),
            EventView::Saved(Err(error)) => failing(session, state, error),
            _ => ignoring(session, state, phase),
        },
        PhaseView::Assembling { walk } => match event {
            EventView::Loaded(Ok(record)) => walking(session, state, walk.accept(record)),
            EventView::Loaded(Err(error)) => failing(session, state, error),
            _ => ignoring(session, state, phase),
        },
        PhaseView::Generating => match event {
            EventView::Generated(Ok(text)) => replying(session, state, text),
            EventView::Generated(Err(error)) => failing(session, state, error),
            _ => ignoring(session, state, phase),
        },
        PhaseView::Answering { reply, dispatch } => match event {
            EventView::Executed(delivery) => answering(
                session,
                state,
                reply,
                dispatch.supplied(session, delivery),
            ),
            _ => ignoring(session, state, phase),
        },
        PhaseView::Storing { reply } => match event {
            EventView::Saved(Ok(id)) => Outcome {
                session: headed(session, id),
                state: with_status(state, MessageStatus::Completed),
                phase: PhaseView::Finished,
                action: ActionView::Completed,
            },
            EventView::Saved(Err(_)) => failing(session, state, REPLY_NOT_SAVED@),
            _ => ignoring(session, state, phase),
        },
        PhaseView::Finished => ignoring(session, state, phase),
    }
}

/// The phase fits the message: a dispatch that is under way is that of the
/// commands it is meant for, and results answer their commands one for one.
pub open spec fn coherent(state: MessageStateView, phase: PhaseView) -> bool {
    &&& state.message.well_formed()
    &&& match phase {
        PhaseView::Running { dispatch } => dispatch.well_formed() && state.message.fs_commands
            == Some(dispatch.commands),
        PhaseView::Answering { reply, dispatch } => dispatch.well_formed() && reply.fs_commands
            == Some(dispatch.commands),
        PhaseView::Storing { reply } => reply.well_formed(),
        _ => true,
    }
}

/// A step that ends the handling leaves the message completed, pending or
/// failed, never in a status that is only passed through; and a step that
/// does not end it asks for outside work.
pub proof fn lemma_step_settles(
    session: SessionView,
    state: MessageStateView,
    phase: PhaseView,
    event: EventView,
)
    ensures
        ({
            let after = step(session, state, phase, event);
            &&& after.action is Completed ==> after.phase is Finished && after.state.status
                == MessageStatus::Completed
            &&& after.action is Failed ==> after.phase is Finished && (after.state.status
                == MessageStatus::Pending || after.state.status == MessageStatus::Failed)
                && after.state.last_error == Some(after.action->Failed_0)
            &&& after.phase is Finished ==> after.action is Completed || after.action is Failed
                || after.action is Ignored
        }),
{
}

/// No step sends a message back more often than `MAX_RETRIES` times.
pub proof fn lemma_step_bounds_retries(
    session: SessionView,
    state: MessageStateView,
    phase: PhaseView,
    event: EventView,
)
    requires
        state.well_formed(),
    ensures
        step(session, state, phase, event).state.well_formed(),
{
}

/// A step changes nothing of the session but its newest message, and that
/// only when the store has saved a message: the new id is then the newest. A
/// failure leaves the session as it was.
pub proof fn lemma_step_moves_head(
    session: SessionView,
    state: MessageStateView,
    phase: PhaseView,
    event: EventView,
)
    ensures
        ({
            let after = step(session, state, phase, event);
            &&& after.session == (SessionView { head: after.session.head, ..session })
            &&& after.session.head != session.head ==> (event matches EventView::Saved(Ok(id))
                && after.session.head == Some(id))
            &&& after.action is Failed ==> after.session == session
        }),
{
}

/// `after` is the message `before`, but for its id and its results.
pub open spec fn same_record(before: MessageView, after: MessageView) -> bool {
    &&& after.role == before.role
    &&& after.content == before.content
    &&& after.parent == before.parent
    &&& after.fs_commands == before.fs_commands
}

proof fn lemma_beginning_keeps_record(session: SessionView, state: MessageStateView)
    ensures
        same_record(state.message, beginning(session, state).state.message),
        beginning(session, state).state.message.id == state.message.id,
{
    match state.message.fs_commands {
        Some(commands) => {
            let started = with_status(state, MessageStatus::ProcessingCommands);
            assert(same_record(
                state.message,
                running(session, started, fresh(commands)).state.message,
            ));
        },
        None => {
            assert(same_record(state.message, responding(session, state).state.message));
        },
    }
}

/// A message is what it was made as: a step changes neither its role, nor its
/// content, nor its parent, nor its commands. What a step may give it is the
/// results of its commands and a new id, and the id only when the store has
/// saved the message and named that id.
pub proof fn lemma_step_keeps_message(
    session: SessionView,
    state: MessageStateView,
    phase: PhaseView,
    event: EventView,
)
    ensures
        same_record(state.message, step(session, state, phase, event).state.message),
        step(session, state, phase, event).state.message.id != state.message.id ==> (
        event matches EventView::Saved(Ok(id)) && step(
            session,
            state,
            phase,
            event,
        ).state.message.id == Some(id)),
{
    match phase {
        PhaseView::Submitting => {
            if let EventView::Saved(Ok(id)) = event {
                lemma_beginning_keeps_record(headed(session, id), stored_as(state, id));
            }
        },
        PhaseView::Ready => {
            lemma_beginning_keeps_record(session, state);
        },
        PhaseView::Running { dispatch } => {
            if let EventView::Executed(delivery) = event {
                assert(same_record(
                    state.message,
                    running(session, state, dispatch.supplied(session, delivery)).state.message,
                ));
            }
        },
        PhaseView::Resaving => {
            if let EventView::Saved(Ok(id)) = event {
                assert(same_record(
                    state.message,
                    responding(headed(session, id), stored_as(state, id)).state.message,
                ));
            }
        },
        PhaseView::Assembling { walk } => {
            if let EventView::Loaded(Ok(record)) = event {
                assert(walking(session, state, walk.accept(record)).state == state);
            }
        },
        PhaseView::Generating => {
            if let EventView::Generated(Ok(text)) = event {
                assert(replying(session, state, text).state == state);
            }
        },
        PhaseView::Answering { reply, dispatch } => {
            if let EventView::Executed(delivery) = event {
                assert(answering(
                    session,
                    state,
                    reply,
                    dispatch.supplied(session, delivery),
                ).state == state);
            }
        },
        _ => {},
    }
}

/// A step keeps the phase fitting the message, and a message that it hands
/// out to be saved has, where it has results, one result for each of its
/// commands, in the order of the commands.
pub proof fn lemma_step_keeps_coherent(
    session: SessionView,
    state: MessageStateView,
    phase: PhaseView,
    event: EventView,
)
    requires
        coherent(state, phase),
    ensures
        ({
            let after = step(session, state, phase, event);
            &&& coherent(after.state, after.phase)
            &&& after.action matches ActionView::Save(message) ==> message.well_formed()
        }),
{
    match phase {
        PhaseView::Submitting => {
            if let EventView::Saved(Ok(id)) = event {
                lemma_beginning_coherent(headed(session, id), stored_as(state, id));
            }
        },
        PhaseView::Ready => {
            lemma_beginning_coherent(session, state);
        },
        PhaseView::Running { dispatch } => {
            if let EventView::Executed(delivery) = event {
                dispatch.lemma_supplied(session, delivery);
                lemma_running_coherent(session, state, dispatch.supplied(session, delivery));
            }
        },
        PhaseView::Generating => {
            if let EventView::Generated(Ok(text)) = event {
                let reply = reply_to(state.message, text);
                if let Some(commands) = reply.fs_commands {
                    lemma_answering_coherent(session, state, reply, fresh(commands));
                }
            }
        },
        PhaseView::Answering { reply, dispatch } => {
            if let EventView::Executed(delivery) = event {
                dispatch.lemma_supplied(session, delivery);
                lemma_answering_coherent(
                    session,
                    state,
                    reply,
                    dispatch.supplied(session, delivery),
                );
            }
        },
        _ => {},
    }
}

proof fn lemma_running_coherent(session: SessionView, state: MessageStateView, dispatch: DispatchView)
    requires
        state.message.well_formed(),
        dispatch.well_formed(),
        state.message.fs_commands == Some(dispatch.commands),
    ensures
        ({
            let after = running(session, state, dispatch);
            &&& coherent(after.state, after.phase)
            &&& after.action matches ActionView::Save(message) ==> message.well_formed()
        }),
{
    dispatch.lemma_settled(session);
    if dispatch.settled(session).pending(session) is None {
        dispatch.lemma_done(session);
    }
}

proof fn lemma_answering_coherent(
    session: SessionView,
    state: MessageStateView,
    reply: MessageView,
    dispatch: DispatchView,
)
    requires
        state.message.well_formed(),
        dispatch.well_formed(),
        reply.fs_commands == Some(dispatch.commands),
    ensures
        ({
            let after = answering(session, state, reply, dispatch);
            &&& coherent(after.state, after.phase)
            &&& after.action matches ActionView::Save(message) ==> message.well_formed()
        }),
{
    dispatch.lemma_settled(session);
    if dispatch.settled(session).pending(session) is None {
        dispatch.lemma_done(session);
    }
}

proof fn lemma_beginning_coherent(session: SessionView, state: MessageStateView)
    requires
        state.message.well_formed(),
    ensures
        ({
            let after = beginning(session, state);
            &&& coherent(after.state, after.phase)
            &&& after.action matches ActionView::Save(message) ==> message.well_formed()
        }),
{
    if let Some(commands) = state.message.fs_commands {
        lemma_running_coherent(
            session,
            with_status(state, MessageStatus::ProcessingCommands),
            fresh(commands),
        );
    }
}

impl State {
    /// The state of a message that the user has just sent, before it is stored:
    /// a pending message of the user with the content `content`, whose parent
    /// is the newest message of the session. It carries `commands`, unless
    /// there are none. Its handling starts in phase `Submitting`, with the
    /// message itself being saved.
    pub fn send_message(&self, content: String, commands: Vec<FsCommand>) -> (state: MessageState)
        ensures
            state@ == (MessageStateView {
                message: MessageView {
                    role: "user"@,
                    content: content@,
                    parent: self@.head,
                    id: None,
                    fs_commands: if commands.len() > 0 {
                        Some(commands.deep_view())
                    } else {
                        None
                    },
                    fs_results: None,
                },
                status: MessageStatus::Pending,
                retries: 0,
                last_error: None,
            }),
            state@.well_formed(),
    {
        let mut message = Message::new("user".to_owned(), content, self.head.clone());
        if commands.len() > 0 {
            message.fs_commands = Some(commands);
        }
        MessageState::new(message)
    }

    fn fail(&self, message_state: &mut MessageState, error: String) -> (next: (Phase, Action))
        ensures
            failing(self@, old(message_state)@, error@) == (Outcome {
                session: self@,
                state: final(message_state)@,
                phase: next.0@,
                action: next.1@,
            }),
    {
        self.handle_retry(message_state, error.as_str());
        (Phase::Finished, Action::Failed(error))
    }

    fn walk_on(&self, walk: HistoryWalk) -> (next: (Phase, Action))
        ensures
            forall|state: MessageStateView|
                #[trigger] walking(self@, state, walk@) == (Outcome {
                    session: self@,
                    state,
                    phase: next.0@,
                    action: next.1@,
                }),
    {
        let wanted = match walk.wanted() {
            Some(id) => Some(id.clone()),
            None => None,
        };
        match wanted {
            Some(id) => (Phase::Assembling { walk }, Action::Load(id)),
            None => {
                let history = walk.finish();
                (Phase::Generating, Action::Generate(self.generation_request(&history)))
            },
        }
    }

    fn respond(&self, message_state: &mut MessageState) -> (next: (Phase, Action))
        ensures
            responding(self@, old(message_state)@) == (Outcome {
                session: self@,
                state: final(message_state)@,
                phase: next.0@,
                action: next.1@,
            }),
    {
        if same_text(message_state.message.role.as_str(), "user") {
            message_state.status = MessageStatus::GeneratingResponse;
            let walk = self.get_message_history();
            self.walk_on(walk)
        } else {
            message_state.status = MessageStatus::Completed;
            (Phase::Finished, Action::Completed)
        }
    }

    fn run(&self, message_state: &mut MessageState, dispatch: Dispatch) -> (next: (Phase, Action))
        ensures
            running(self@, old(message_state)@, dispatch@) == (Outcome {
                session: self@,
                state: final(message_state)@,
                phase: next.0@,
                action: next.1@,
            }),
    {
        let (dispatch, call) = dispatch.advance(self);
        match call {
            Some(call) => (Phase::Running { dispatch }, Action::Execute(call)),
            None => {
                message_state.message.fs_results = Some(dispatch.finish());
                (Phase::Resaving, Action::Save(message_state.message.clone()))
            },
        }
    }

    fn answer(&self, reply: Message, dispatch: Dispatch) -> (next: (Phase, Action))
        ensures
            forall|state: MessageStateView|
                #[trigger] answering(self@, state, reply@, dispatch@) == (Outcome {
                    session: self@,
                    state,
                    phase: next.0@,
                    action: next.1@,
                }),
    {
        let (dispatch, call) = dispatch.advance(self);
        match call {
            Some(call) => (Phase::Answering { reply, dispatch }, Action::Execute(call)),
            None => {
                let mut reply = reply;
                reply.fs_results = Some(dispatch.finish());
                let copy = reply.clone();
                (Phase::Storing { reply }, Action::Save(copy))
            },
        }
    }

    fn begin(&self, message_state: &mut MessageState) -> (next: (Phase, Action))
        ensures
            beginning(self@, old(message_state)@) == (Outcome {
                session: self@,
                state: final(message_state)@,
                phase: next.0@,
                action: next.1@,
            }),
    {
        let commands = match &message_state.message.fs_commands {
            Some(commands) => Some(copy_commands(commands)),
            None => None,
        };
        match commands {
            Some(commands) => {
                message_state.status = MessageStatus::ProcessingCommands;
                self.run(message_state, Dispatch::new(commands))
            },
            None => self.respond(message_state),
        }
    }

    fn reply(&self, to: &Message, text: String) -> (next: (Phase, Action))
        ensures
            forall|state: MessageStateView|
                state.message == to@ ==> #[trigger] replying(self@, state, text@) == (Outcome {
                    session: self@,
                    state,
                    phase: next.0@,
                    action: next.1@,
                }),
    {
        let commands = parse_fs_commands(text.as_str());
        let mut reply = Message::new("assistant".to_owned(), text, to.id.clone());
        match commands {
            Some(commands) => {
                let dispatch = Dispatch::new(copy_commands(&commands));
                reply.fs_commands = Some(commands);
                self.answer(reply, dispatch)
            },
            None => {
                let copy = reply.clone();
                (Phase::Storing { reply }, Action::Save(copy))
            },
        }
    }

    /// One step in the handling of a message. `event` says how the outside
    /// work that the last step asked for has ended; the result is the phase
    /// that the handling is in now, and the outside work to do next. The
    /// handling has ended when the action is `Completed` or `Failed`; the
    /// message is then completed, pending again, or failed. An event that the
    /// phase does not await is passed over: nothing changes, and the action
    /// is `Ignored`.
    pub fn process_message(
        &mut self,
        message_state: &mut MessageState,
        phase: Phase,
        event: Event,
    ) -> (next: (Phase, Action))
        ensures
            step(old(self)@, old(message_state)@, phase@, event@) == (Outcome {
                session: final(self)@,
                state: final(message_state)@,
                phase: next.0@,
                action: next.1@,
            }),
    {
        match (phase, event) {
            (Phase::Submitting, Event::Saved(Ok(id))) => {
                message_state.message.id = Some(id.clone());
                self.head = Some(id);
                self.begin(message_state)
            },
            (Phase::Submitting, Event::Saved(Err(error))) => self.fail(message_state, error),
            (Phase::Ready, Event::Begin) => self.begin(message_state),
            (Phase::Running { dispatch }, Event::Executed(delivery)) => {
                let dispatch = dispatch.supply(self, delivery);
                self.run(message_state, dispatch)
            },
            (Phase::Resaving, Event::Saved(Ok(id))) => {
                message_state.message.id = Some(id.clone());
                self.head = Some(id);
                self.respond(message_state)
            },
            (Phase::Resaving, Event::Saved(Err(error))) => self.fail(message_state, error),
            (Phase::Assembling { walk }, Event::Loaded(Ok(record))) => {
                let walk = walk.accept(record);
                self.walk_on(walk)
            },
            (Phase::Assembling { walk }, Event::Loaded(Err(error))) => self.fail(
                message_state,
                error,
            ),
            (Phase::Generating, Event::Generated(Ok(text))) => self.reply(
                &message_state.message,
                text,
            ),
            (Phase::Generating, Event::Generated(Err(error))) => self.fail(message_state, error),
            (Phase::Answering { reply, dispatch }, Event::Executed(delivery)) => {
                let dispatch = dispatch.supply(self, delivery);
                self.answer(reply, dispatch)
            },
            (Phase::Storing { reply }, Event::Saved(Ok(id))) => {
                self.head = Some(id);
                message_state.status = MessageStatus::Completed;
                (Phase::Finished, Action::Completed)
            },
            (Phase::Storing { reply }, Event::Saved(Err(_))) => self.fail(
                message_state,
                REPLY_NOT_SAVED.to_owned(),
            ),
            (phase, _) => (phase, Action::Ignored),
        }
    }
}

impl MessageState {
    /// The state of a stored message that is handled again: the record as it
    /// was loaded, under the id `id`, pending and with no retry counted. Its
    /// handling starts in phase `Ready`, and runs as that of a new message:
    /// its commands are carried out again, and a message of the user is
    /// answered again.
    pub fn resubmit(record: Message, id: String) -> (state: Self)
        ensures
            state@ == (MessageStateView {
                message: record@.with_id(id@),
                status: MessageStatus::Pending,
                retries: 0,
                last_error: None,
            }),
            state@.well_formed(),
    {
        MessageState::new(record.with_id(id))
    }
}

} // verus!
