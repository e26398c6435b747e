//! Carrying out the commands of a message, one after the other.
//!
//! A command that the session does not permit, or for which no executor is
//! attached, is settled at once with a failed result and nothing is sent out.
//! Every other command is sent to the executor with its path resolved, and
//! what comes back decides its result. Whatever happens to one command, the
//! commands after it are still carried out, and in the end there is one result
//! for each command, in the order of the commands.

use crate::message::{answers, CommandView, FsCommand, FsResult, ResultView};
use crate::render::{debug_listing, join, joined, listing};
use crate::session::{permits, resolved, SessionView, State};
use crate::text::same_text;
use vstd::prelude::*;
use vstd::string::StringExecFns;

verus! {

/// What an executor hands back with a response.
#[derive(Debug, PartialEq, Eq)]
pub enum FsResponseData {
    /// The names in a directory.
    FileList(Vec<String>),
    /// What a file holds.
    FileContent(String),
    /// Nothing.
    Empty,
}

/// What an `FsResponseData` holds, as sequences.
pub enum DataView {
    FileList(Seq<Seq<char>>),
    FileContent(Seq<char>),
    Empty,
}

impl DeepView for FsResponseData {
    type V = DataView;

    open spec fn deep_view(&self) -> DataView {
        match self {
            FsResponseData::FileList(names) => DataView::FileList(names.deep_view()),
            FsResponseData::FileContent(content) => DataView::FileContent(content@),
            FsResponseData::Empty => DataView::Empty,
        }
    }
}

/// The response of an executor to one request.
#[derive(Debug, PartialEq, Eq)]
pub struct FsResponse {
    pub success: bool,
    pub data: Option<FsResponseData>,
    pub error: Option<String>,
}

/// What an `FsResponse` holds, as sequences.
pub struct ResponseView {
    pub success: bool,
    pub data: Option<DataView>,
    pub error: Option<Seq<char>>,
}

impl DeepView for FsResponse {
    type V = ResponseView;

    open spec fn deep_view(&self) -> ResponseView {
        ResponseView {
            success: self.success,
            data: self.data.deep_view(),
            error: self.error.deep_view(),
        }
    }
}

/// How a request to the executor ended.
#[derive(Debug, PartialEq, Eq)]
pub enum Delivery {
    /// The executor answered.
    Answered(FsResponse),
    /// Something came back that is no response.
    Unreadable,
    /// The request did not get through; the text says why.
    Failed(String),
}

/// What a `Delivery` holds, as sequences.
pub enum DeliveryView {
    Answered(ResponseView),
    Unreadable,
    Failed(Seq<char>),
}

impl DeepView for Delivery {
    type V = DeliveryView;

    open spec fn deep_view(&self) -> DeliveryView {
        match self {
            Delivery::Answered(response) => DeliveryView::Answered(response.deep_view()),
            Delivery::Unreadable => DeliveryView::Unreadable,
            Delivery::Failed(reason) => DeliveryView::Failed(reason@),
        }
    }
}

impl View for Delivery {
    type V = DeliveryView;

    open spec fn view(&self) -> DeliveryView {
        self.deep_view()
    }
}

/// A request to an executor.
#[derive(Debug, PartialEq, Eq)]
pub struct ExecutorRequest {
    pub operation: String,
    pub path: String,
    pub content: Option<String>,
}

/// A request together with the executor that it goes to.
#[derive(Debug, PartialEq, Eq)]
pub struct Call {
    pub executor: String,
    pub request: ExecutorRequest,
}

/// What a `Call` holds, as sequences.
pub struct CallView {
    pub executor: Seq<char>,
    pub operation: Seq<char>,
    pub path: Seq<char>,
    pub content: Option<Seq<char>>,
}

impl DeepView for Call {
    type V = CallView;

    open spec fn deep_view(&self) -> CallView {
        CallView {
            executor: self.executor@,
            operation: self.request.operation@,
            path: self.request.path@,
            content: self.request.content.deep_view(),
        }
    }
}

impl View for Call {
    type V = CallView;

    open spec fn view(&self) -> CallView {
        self.deep_view()
    }
}

/// The failed result of `command`, with the error text `error`.
pub open spec fn failure(command: CommandView, error: Seq<char>) -> ResultView {
    ResultView {
        success: false,
        operation: command.operation,
        path: command.path,
        data: None,
        error: Some(error),
    }
}

/// The error text for an operation that the session does not permit. It names
/// the operation and lists what the session holds.
pub open spec fn denial_text(operation: Seq<char>, permissions: Seq<Seq<char>>) -> Seq<char> {
    "Operation '"@ + operation + "' not permitted, permitted operations: "@ + debug_listing(
        permissions,
    )
}

/// The error text for a request that did not get through.
pub open spec fn undelivered_text(reason: Seq<char>) -> Seq<char> {
    "Request failed: "@ + reason
}

/// The result of a command that is settled without the executor, if `command`
/// is one: the operation is not permitted, or, where it is, no executor is
/// attached to the session.
pub open spec fn refusal(session: SessionView, command: CommandView) -> Option<ResultView> {
    if !permits(session.permissions, command.operation) {
        Some(failure(command, denial_text(command.operation, session.permissions)))
    } else if session.fs_proxy_id is None {
        Some(failure(command, "executor unavailable"@))
    } else {
        None
    }
}

/// The call that carries `command` out, for a session with an executor.
pub open spec fn call_for(session: SessionView, command: CommandView) -> CallView {
    CallView {
        executor: session.fs_proxy_id.unwrap(),
        operation: command.operation,
        path: resolved(session.fs_path, command.path),
        content: command.content,
    }
}

/// What a result hands on of the data of a response: the listing of a
/// directory as one line for `list-files`, what the file holds for
/// `read-file`, and nothing for any other operation, or for data of another kind.
pub open spec fn payload(operation: Seq<char>, data: Option<DataView>) -> Option<Seq<char>> {
    match data {
        Some(DataView::FileList(names)) => if operation == "list-files"@ {
            Some(joined(names, ", "@))
        } else {
            None
        },
        Some(DataView::FileContent(content)) => if operation == "read-file"@ {
            Some(content)
        } else {
            None
        },
        _ => None,
    }
}

/// The result of a command that was sent out, given how the request ended.
pub open spec fn reported(command: CommandView, delivery: DeliveryView) -> ResultView {
    match delivery {
        DeliveryView::Answered(response) => ResultView {
            success: response.success,
            operation: command.operation,
            path: command.path,
            data: payload(command.operation, response.data),
            error: response.error,
        },
        DeliveryView::Unreadable => failure(command, "Invalid response"@),
        DeliveryView::Failed(reason) => failure(command, undelivered_text(reason)),
    }
}

/// A failed result for `command` with the error text `error`.
fn fail(command: &FsCommand, error: String) -> (result: FsResult)
    ensures
        result@ == failure(command@, error@),
{
    FsResult {
        success: false,
        operation: command.operation.clone(),
        path: command.path.clone(),
        data: None,
        error: Some(error),
    }
}

/// What is to be done with one command.
#[derive(Debug, PartialEq, Eq)]
pub enum Plan {
    /// It is settled with this result, and nothing is sent out.
    Settled(FsResult),
    /// It is sent to the executor.
    Send(Call),
}

impl State {
    /// Decides what is to be done with `command`: where the session does not
    /// permit the operation, or has no executor, the command is settled with
    /// a failed result; else it is sent out with its path resolved.
    pub fn plan(&self, command: &FsCommand) -> (plan: Plan)
        ensures
            match plan {
                Plan::Settled(result) => refusal(self@, command@) == Some(result@),
                Plan::Send(call) => refusal(self@, command@) is None && call@ == call_for(
                    self@,
                    command@,
                ),
            },
    {
        if !self.allowed_operation(command.operation.as_str()) {
            let mut error = "Operation '".to_owned();
            error.append(command.operation.as_str());
            error.append("' not permitted, permitted operations: ");
            error.append(listing(&self.permissions).as_str());
            return Plan::Settled(fail(command, error));
        }
        match &self.fs_proxy_id {
            Some(executor) => Plan::Send(
                Call {
                    executor: executor.clone(),
                    request: ExecutorRequest {
                        operation: command.operation.clone(),
                        path: self.resolve_path(command.path.as_str()),
                        content: command.content.clone(),
                    },
                },
            ),
            None => Plan::Settled(fail(command, "executor unavailable".to_owned())),
        }
    }
}

/// The result of `command`, which was sent out, given how the request ended.
/// What the executor says of success and error is handed on as it is.
pub fn report(command: &FsCommand, delivery: Delivery) -> (result: FsResult)
    ensures
        result@ == reported(command@, delivery@),
{
    match delivery {
        Delivery::Answered(response) => {
            let data = match response.data {
                Some(FsResponseData::FileList(names)) => {
                    if same_text(command.operation.as_str(), "list-files") {
                        Some(join(&names, ", "))
                    } else {
                        None
                    }
                },
                Some(FsResponseData::FileContent(content)) => {
                    if same_text(command.operation.as_str(), "read-file") {
                        Some(content)
                    } else {
                        None
                    }
                },
                _ => None,
            };
            FsResult {
                success: response.success,
                operation: command.operation.clone(),
                path: command.path.clone(),
                data,
                error: response.error,
            }
        },
        Delivery::Unreadable => fail(command, "Invalid response".to_owned()),
        Delivery::Failed(reason) => {
            let mut error = "Request failed: ".to_owned();
            error.append(reason.as_str());
            fail(command, error)
        },
    }
}

/// The commands of one message on their way through the executor: the
/// commands, and the results of those that have been dealt with so far.
#[derive(Debug, PartialEq, Eq)]
pub struct Dispatch {
    commands: Vec<FsCommand>,
    results: Vec<FsResult>,
}

/// What a `Dispatch` holds, as sequences.
pub struct DispatchView {
    pub commands: Seq<CommandView>,
    pub results: Seq<ResultView>,
}

impl DispatchView {
    /// There is a result for each of the first commands, in their order, and
    /// each result names the operation and the path of its command.
    pub open spec fn well_formed(self) -> bool {
        &&& self.results.len() <= self.commands.len()
        &&& forall|i: int|
            0 <= i < self.results.len() ==> answers(
                #[trigger] self.commands[i],
                #[trigger] self.results[i],
            )
    }

    /// Every command has its result.
    pub open spec fn done(self) -> bool {
        self.results.len() >= self.commands.len()
    }

    /// The first command that has no result yet.
    pub open spec fn current(self) -> CommandView {
        self.commands[self.results.len() as int]
    }

    /// The call that is to be made now: the one for the current command,
    /// unless that command is settled without the executor.
    pub open spec fn pending(self, session: SessionView) -> Option<CallView> {
        if !self.done() && refusal(session, self.current()) is None {
            Some(call_for(session, self.current()))
        } else {
            None
        }
    }

    /// The dispatch after `result` has been recorded for the current command.
    pub open spec fn recorded(self, result: ResultView) -> DispatchView {
        DispatchView { results: self.results.push(result), ..self }
    }

    /// The dispatch after the call for the current command ended as `delivery`
    /// says. Where no call was to be made the delivery is passed over.
    pub open spec fn supplied(self, session: SessionView, delivery: DeliveryView) -> DispatchView {
        if self.pending(session) is Some {
            self.recorded(reported(self.current(), delivery))
        } else {
            self
        }
    }

    /// The dispatch after every command that is settled without the executor
    /// has got its result, up to the first command that must be sent out.
    pub open spec fn settled(self, session: SessionView) -> DispatchView
        decreases self.commands.len() - self.results.len(),
    {
        if !self.done() && refusal(session, self.current()) is Some {
            self.recorded(refusal(session, self.current()).unwrap()).settled(session)
        } else {
            self
        }
    }

    /// What `settled` leaves is well formed, keeps the commands and the results
    /// there were, and stands either at the end or at a command that must be
    /// sent out.
    pub proof fn lemma_settled(self, session: SessionView)
        requires
            self.well_formed(),
        ensures
            self.settled(session).well_formed(),
            self.settled(session).commands == self.commands,
            self.settled(session).results.len() >= self.results.len(),
            self.settled(session).results.take(self.results.len() as int) == self.results,
            self.settled(session).done() != (self.settled(session).pending(session) is Some),
            forall|i: int|
                self.results.len() <= i < self.settled(session).results.len() ==> Some(
                    #[trigger] self.settled(session).results[i],
                ) == refusal(session, self.commands[i]),
        decreases self.commands.len() - self.results.len(),
    {
        if !self.done() && refusal(session, self.current()) is Some {
            let next = self.recorded(refusal(session, self.current()).unwrap());
            next.lemma_settled(session);
            assert(next.settled(session).results.take(self.results.len() as int)
                =~= next.settled(session).results.take(next.results.len() as int).take(
                self.results.len() as int,
            ));
            assert(next.results.take(self.results.len() as int) =~= self.results);
            let end = next.settled(session).results;
            assert(end.take(next.results.len() as int)[self.results.len() as int]
                == end[self.results.len() as int]);
        } else {
            assert(self.results.take(self.results.len() as int) =~= self.results);
        }
    }
}

impl DispatchView {
    /// What `supplied` leaves is well formed, and keeps the commands.
    pub proof fn lemma_supplied(self, session: SessionView, delivery: DeliveryView)
        requires
            self.well_formed(),
        ensures
            self.supplied(session, delivery).well_formed(),
            self.supplied(session, delivery).commands == self.commands,
    {
    }

    /// When the commands have been settled and no call is pending, there is
    /// one result for each command, in the order of the commands, and each
    /// names the operation and the path of its command.
    pub proof fn lemma_done(self, session: SessionView)
        requires
            self.well_formed(),
            self.settled(session).pending(session) is None,
        ensures
            self.settled(session).results.len() == self.commands.len(),
            forall|i: int|
                0 <= i < self.commands.len() ==> answers(
                    #[trigger] self.commands[i],
                    #[trigger] self.settled(session).results[i],
                ),
    {
        self.lemma_settled(session);
    }
}

impl DispatchView {
    /// The dispatch after the calls that it asks for, one after the other,
    /// have ended as `deliveries` say.
    pub open spec fn served(self, session: SessionView, deliveries: Seq<DeliveryView>) -> DispatchView
        decreases deliveries.len(),
    {
        let settled = self.settled(session);
        if deliveries.len() == 0 {
            settled
        } else {
            settled.supplied(session, deliveries[0]).served(session, deliveries.drop_first())
        }
    }

    /// Whatever comes back from the executor, a dispatch comes to its end:
    /// once as many calls have ended as there were commands left, every
    /// command has its result. The results are as many as the commands, each
    /// names the operation and the path of its command, and each is either
    /// the refusal of its command or the report on a call that was made.
    pub proof fn lemma_served(self, session: SessionView, deliveries: Seq<DeliveryView>)
        requires
            self.well_formed(),
            deliveries.len() >= self.commands.len() - self.results.len(),
        ensures
            self.served(session, deliveries).well_formed(),
            self.served(session, deliveries).commands == self.commands,
            self.served(session, deliveries).pending(session) is None,
            self.served(session, deliveries).results.len() == self.commands.len(),
            self.served(session, deliveries).results.take(self.results.len() as int)
                == self.results,
            forall|i: int|
                self.results.len() <= i < self.commands.len() ==> {
                    let result = #[trigger] self.served(session, deliveries).results[i];
                    match refusal(session, self.commands[i]) {
                        Some(refused) => result == refused,
                        None => exists|delivery: DeliveryView|
                            result == reported(self.commands[i], delivery),
                    }
                },
        decreases deliveries.len(),
    {
        let settled = self.settled(session);
        self.lemma_settled(session);
        let k = self.results.len() as int;
        assert(settled.results.take(k) == self.results);
        if deliveries.len() == 0 {
            assert(settled.done());
        } else {
            let next = settled.supplied(session, deliveries[0]);
            settled.lemma_supplied(session, deliveries[0]);
            next.lemma_served(session, deliveries.drop_first());
            let end = next.served(session, deliveries.drop_first());
            let n = settled.results.len() as int;
            assert(next.results.take(n) =~= settled.results);
            assert(end.results.take(n) =~= end.results.take(next.results.len() as int).take(n));
            assert(end.results.take(k) =~= end.results.take(n).take(k));
            assert forall|i: int| k <= i < self.commands.len() implies {
                let result = #[trigger] end.results[i];
                match refusal(session, self.commands[i]) {
                    Some(refused) => result == refused,
                    None => exists|delivery: DeliveryView|
                        result == reported(self.commands[i], delivery),
                }
            } by {
                if i < n {
                    assert(end.results.take(n)[i] == end.results[i]);
                    assert(Some(settled.results[i]) == refusal(session, self.commands[i]));
                } else if i == n && settled.pending(session) is Some {
                    assert(end.results.take(next.results.len() as int)[i] == end.results[i]);
                    assert(next.results[i] == reported(self.commands[i], deliveries[0]));
                }
            }
        }
    }
}

impl DeepView for Dispatch {
    type V = DispatchView;

    closed spec fn deep_view(&self) -> DispatchView {
        DispatchView { commands: self.commands.deep_view(), results: self.results.deep_view() }
    }
}

impl View for Dispatch {
    type V = DispatchView;

    open spec fn view(&self) -> DispatchView {
        self.deep_view()
    }
}

impl Dispatch {
    #[verifier::type_invariant]
    spec fn sound(self) -> bool {
        self.deep_view().well_formed()
    }

    /// The dispatch of `commands`, none of which has a result yet.
    pub fn new(commands: Vec<FsCommand>) -> (dispatch: Self)
        ensures
            dispatch@ == (DispatchView { commands: commands.deep_view(), results: Seq::empty() }),
    {
        let dispatch = Dispatch { commands, results: Vec::new() };
        assert(dispatch.results.deep_view() =~= Seq::empty());
        dispatch
    }

    /// Whether every command has its result.
    pub fn is_done(&self) -> (done: bool)
        ensures
            self@.well_formed(),
            done == self@.done(),
    {
        proof {
            use_type_invariant(self);
        }
        self.results.len() >= self.commands.len()
    }

    /// Settles every command that needs no executor, up to the first one that
    /// must be sent out, and returns the call for that one; `None` when every
    /// command has its result.
    pub fn advance(self, session: &State) -> (next: (Self, Option<Call>))
        ensures
            next.0@ == self@.settled(session@),
            next.1.deep_view() == next.0@.pending(session@),
            next.1 is None <==> next.0@.done(),
            next.0@.well_formed(),
    {
        proof {
            use_type_invariant(&self);
            self@.lemma_settled(session@);
        }
        let ghost start = self@;
        let Dispatch { commands, mut results } = self;
        while results.len() < commands.len()
            invariant
                start == self@,
                commands.deep_view() == start.commands,
                (DispatchView { commands: start.commands, results: results.deep_view() }).well_formed(),
                (DispatchView { commands: start.commands, results: results.deep_view() }).settled(
                    session@,
                ) == start.settled(session@),
            decreases commands.len() - results.len(),
        {
            let ghost before = DispatchView {
                commands: start.commands,
                results: results.deep_view(),
            };
            let k = results.len();
            match session.plan(&commands[k]) {
                Plan::Settled(result) => {
                    results.push(result);
                    assert(results.deep_view() =~= before.results.push(result@));
                },
                Plan::Send(call) => {
                    return (Dispatch { commands, results }, Some(call));
                },
            }
        }
        (Dispatch { commands, results }, None)
    }

    /// Records how the call that `advance` asked for has ended. Where no call
    /// was asked for, nothing changes.
    pub fn supply(self, session: &State, delivery: Delivery) -> (next: Self)
        ensures
            next@ == self@.supplied(session@, delivery@),
            next@.well_formed(),
    {
        proof {
            use_type_invariant(&self);
        }
        let ghost before = self@;
        let Dispatch { commands, mut results } = self;
        if results.len() < commands.len() {
            let k = results.len();
            match session.plan(&commands[k]) {
                Plan::Send(_) => {
                    let result = report(&commands[k], delivery);
                    results.push(result);
                    assert(results.deep_view() =~= before.results.push(result@));
                },
                Plan::Settled(_) => {},
            }
        }
        Dispatch { commands, results }
    }

    /// The results so far: when the dispatch is done, one for each command,
    /// in the order of the commands.
    pub fn finish(self) -> (results: Vec<FsResult>)
        ensures
            results.deep_view() == self@.results,
            self@.well_formed(),
    {
        proof {
            use_type_invariant(&self);
        }
        self.results
    }
}

} // verus!
