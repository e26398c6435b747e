use filesystem_chat::dispatch::{Delivery, FsResponse, FsResponseData};
use filesystem_chat::message::{FsCommand, Message, MessageState, MessageStatus};
use filesystem_chat::pipeline::{Action, Event, Phase, REPLY_NOT_SAVED};
use filesystem_chat::session::State;

/// Everything outside the library, faked: a store that numbers its records,
/// an executor and a backend that answer from a script.
struct World {
    records: Vec<(String, Message)>,
    store_fails_at: Option<usize>,
    deliveries: Vec<Delivery>,
    replies: Vec<Result<String, String>>,
    log: Vec<String>,
}

impl World {
    fn new() -> World {
        World {
            records: Vec::new(),
            store_fails_at: None,
            deliveries: Vec::new(),
            replies: Vec::new(),
            log: Vec::new(),
        }
    }

    fn perform(&mut self, action: Action) -> Option<Event> {
        match action {
            Action::Save(message) => {
                self.log.push(format!("save {}", message.role));
                if self.store_fails_at == Some(self.records.len()) {
                    return Some(Event::Saved(Err("Failed to save message".to_string())));
                }
                let id = (self.records.len() + 1).to_string();
                self.records.push((id.clone(), message));
                Some(Event::Saved(Ok(id)))
            }
            Action::Load(id) => {
                self.log.push(format!("load {}", id));
                match self.records.iter().find(|(key, _)| *key == id) {
                    Some((_, record)) => Some(Event::Loaded(Ok(record.clone()))),
                    None => Some(Event::Loaded(Err("Failed to load message".to_string()))),
                }
            }
            Action::Execute(call) => {
                self.log.push(format!(
                    "execute {} {} {}",
                    call.executor, call.request.operation, call.request.path
                ));
                Some(Event::Executed(self.deliveries.remove(0)))
            }
            Action::Generate(request) => {
                self.log.push(format!("generate {}", request.messages.len()));
                Some(Event::Generated(self.replies.remove(0)))
            }
            Action::Completed => {
                self.log.push("completed".to_string());
                None
            }
            Action::Failed(error) => {
                self.log.push(format!("failed {}", error));
                None
            }
            Action::Ignored => {
                self.log.push("ignored".to_string());
                None
            }
        }
    }

    /// Runs the handling of `state` to its end.
    fn run(&mut self, session: &mut State, state: &mut MessageState, phase: Phase, first: Action) {
        let mut phase = phase;
        let mut action = first;
        let mut statuses = Vec::new();
        while let Some(event) = self.perform(action) {
            let next = session.process_message(state, phase, event);
            phase = next.0;
            action = next.1;
            statuses.push(state.status);
        }
        assert_eq!(phase, Phase::Finished);
        assert!(matches!(
            state.status,
            MessageStatus::Completed | MessageStatus::Pending | MessageStatus::Failed
        ));
    }

    fn submit(&mut self, session: &mut State, content: &str, commands: Vec<FsCommand>) -> MessageState {
        let mut state = session.send_message(content.to_string(), commands);
        let first = Action::Save(state.message.clone());
        self.run(session, &mut state, Phase::Submitting, first);
        state
    }
}

fn session(permissions: &[&str], executor: Option<&str>) -> State {
    State {
        store_id: "store".to_string(),
        fs_proxy_id: executor.map(|e| e.to_string()),
        fs_path: "/work".to_string(),
        permissions: permissions.iter().map(|p| p.to_string()).collect(),
        head: None,
        websocket_port: 1,
        api_key: String::new(),
    }
}

fn cmd(operation: &str, path: &str) -> FsCommand {
    FsCommand {
        operation: operation.to_string(),
        path: path.to_string(),
        content: None,
        old_text: None,
        new_text: None,
    }
}

fn content(text: &str) -> Delivery {
    Delivery::Answered(FsResponse {
        success: true,
        data: Some(FsResponseData::FileContent(text.to_string())),
        error: None,
    })
}

#[test]
fn a_new_message_is_pending_and_names_the_head() {
    let mut s = session(&[], None);
    s.head = Some("41".to_string());
    let state = s.send_message("hello".to_string(), vec![]);
    assert_eq!(state.message.role, "user");
    assert_eq!(state.message.content, "hello");
    assert_eq!(state.message.parent, Some("41".to_string()));
    assert_eq!(state.message.id, None);
    assert_eq!(state.message.fs_commands, None);
    assert_eq!(state.status, MessageStatus::Pending);
    assert_eq!(state.retries, 0);
    let state = s.send_message("run".to_string(), vec![cmd("read-file", "a")]);
    assert_eq!(state.message.fs_commands, Some(vec![cmd("read-file", "a")]));
}

#[test]
fn a_plain_message_is_saved_answered_and_completed() {
    let mut world = World::new();
    world.replies.push(Ok("Hello there".to_string()));
    let mut s = session(&["read"], Some("proxy"));
    let state = world.submit(&mut s, "hi", vec![]);

    assert_eq!(world.log, vec!["save user", "load 1", "generate 1", "save assistant", "completed"]);
    assert_eq!(state.status, MessageStatus::Completed);
    assert_eq!(state.message.id, Some("1".to_string()));
    assert_eq!(state.last_error, None);
    assert_eq!(s.head, Some("2".to_string()));
    let reply = &world.records[1].1;
    assert_eq!(reply.role, "assistant");
    assert_eq!(reply.content, "Hello there");
    assert_eq!(reply.parent, Some("1".to_string()));
    assert_eq!(reply.fs_commands, None);
    assert_eq!(reply.fs_results, None);
}

#[test]
fn commands_of_the_message_are_run_before_it_is_answered() {
    let mut world = World::new();
    world.deliveries.push(content("file body"));
    world.replies.push(Ok("I see".to_string()));
    let mut s = session(&["read"], Some("proxy"));
    let commands = vec![cmd("read-file", "a.txt"), cmd("write-file", "b.txt")];
    let state = world.submit(&mut s, "look", commands.clone());

    assert_eq!(
        world.log,
        vec![
            "save user",
            "execute proxy read-file /work/a.txt",
            "save user",
            "load 2",
            "generate 1",
            "save assistant",
            "completed"
        ]
    );
    assert_eq!(state.status, MessageStatus::Completed);
    // The message was saved again, under a new id and with the same parent.
    assert_eq!(state.message.id, Some("2".to_string()));
    assert_eq!(world.records[0].1.parent, None);
    assert_eq!(world.records[1].1.parent, None);
    assert_eq!(world.records[0].1.fs_results, None);
    let results = world.records[1].1.fs_results.clone().unwrap();
    assert_eq!(results.len(), 2);
    assert_eq!(results[0].data, Some("file body".to_string()));
    assert!(results[1].error.as_ref().unwrap().contains("not permitted"));
    assert_eq!(state.message.fs_results, Some(results));
    assert_eq!(world.records[2].1.parent, Some("2".to_string()));
    assert_eq!(s.head, Some("3".to_string()));
}

#[test]
fn commands_of_the_reply_are_run_and_saved_with_it() {
    let mut world = World::new();
    world.replies.push(Ok(
        "Listing. <fs-command><operation>list-files</operation><path>.</path></fs-command> \
         <fs-command><operation>delete-file</operation><path>x</path></fs-command>"
            .to_string(),
    ));
    world.deliveries.push(Delivery::Answered(FsResponse {
        success: true,
        data: Some(FsResponseData::FileList(vec!["a.txt".to_string(), "b.txt".to_string()])),
        error: None,
    }));
    let mut s = session(&["read"], Some("proxy"));
    let state = world.submit(&mut s, "what is there?", vec![]);

    assert_eq!(
        world.log,
        vec![
            "save user",
            "load 1",
            "generate 1",
            "execute proxy list-files /work",
            "save assistant",
            "completed"
        ]
    );
    assert_eq!(state.status, MessageStatus::Completed);
    let reply = &world.records[1].1;
    assert_eq!(
        reply.fs_commands,
        Some(vec![cmd("list-files", "."), cmd("delete-file", "x")])
    );
    let results = reply.fs_results.clone().unwrap();
    assert_eq!(results.len(), 2);
    assert_eq!(results[0].data, Some("a.txt, b.txt".to_string()));
    assert!(results[0].success);
    assert!(!results[1].success);
    assert!(results[1].error.as_ref().unwrap().contains("not permitted"));
    assert_eq!(s.head, Some("2".to_string()));
}

#[test]
fn the_history_is_walked_from_the_head() {
    let mut world = World::new();
    world.replies.push(Ok("one".to_string()));
    world.replies.push(Ok("two".to_string()));
    let mut s = session(&[], None);
    world.submit(&mut s, "first", vec![]);
    world.log.clear();
    let state = world.submit(&mut s, "second", vec![]);
    assert_eq!(
        world.log,
        vec!["save user", "load 3", "load 2", "load 1", "generate 3", "save assistant", "completed"]
    );
    assert_eq!(state.message.parent, Some("2".to_string()));
    assert_eq!(s.head, Some("4".to_string()));
}

#[test]
fn a_throttled_backend_leaves_the_message_pending() {
    let mut world = World::new();
    world.replies.push(Err("HTTP 429: rate_limit_error".to_string()));
    let mut s = session(&[], None);
    let state = world.submit(&mut s, "hi", vec![]);
    assert_eq!(world.log.last().unwrap(), "failed HTTP 429: rate_limit_error");
    assert_eq!(state.status, MessageStatus::Pending);
    assert_eq!(state.retries, 1);
    assert_eq!(state.last_error, Some("HTTP 429: rate_limit_error".to_string()));
    // The head stays at the message of the user.
    assert_eq!(s.head, Some("1".to_string()));
    assert_eq!(world.records.len(), 1);
}

#[test]
fn any_other_failure_of_the_backend_is_final() {
    let mut world = World::new();
    world.replies.push(Err("Failed to generate response".to_string()));
    let mut s = session(&[], None);
    let state = world.submit(&mut s, "hi", vec![]);
    assert_eq!(state.status, MessageStatus::Failed);
    assert_eq!(state.retries, 0);
    assert_eq!(state.last_error, Some("Failed to generate response".to_string()));
    assert_eq!(s.head, Some("1".to_string()));
}

#[test]
fn a_message_that_cannot_be_saved_fails() {
    let mut world = World::new();
    world.store_fails_at = Some(0);
    let mut s = session(&[], None);
    let state = world.submit(&mut s, "hi", vec![]);
    assert_eq!(world.log, vec!["save user", "failed Failed to save message"]);
    assert_eq!(state.status, MessageStatus::Failed);
    assert_eq!(state.message.id, None);
    assert_eq!(s.head, None);
}

#[test]
fn results_that_cannot_be_saved_fail_the_message() {
    let mut world = World::new();
    world.store_fails_at = Some(1);
    let mut s = session(&[], None);
    let state = world.submit(&mut s, "hi", vec![cmd("read-file", "a")]);
    assert_eq!(world.log, vec!["save user", "save user", "failed Failed to save message"]);
    assert_eq!(state.status, MessageStatus::Failed);
    assert_eq!(state.message.id, Some("1".to_string()));
    assert_eq!(s.head, Some("1".to_string()));
}

#[test]
fn a_reply_that_cannot_be_saved_fails_the_message() {
    let mut world = World::new();
    world.store_fails_at = Some(1);
    world.replies.push(Ok("lost".to_string()));
    let mut s = session(&[], None);
    let state = world.submit(&mut s, "hi", vec![]);
    assert_eq!(REPLY_NOT_SAVED, "Failed to save AI message");
    assert_eq!(world.log.last().unwrap(), "failed Failed to save AI message");
    assert_eq!(state.status, MessageStatus::Failed);
    assert_eq!(state.last_error, Some("Failed to save AI message".to_string()));
    assert_eq!(s.head, Some("1".to_string()));
}

#[test]
fn a_broken_chain_fails_the_message() {
    let mut world = World::new();
    let mut s = session(&[], None);
    s.head = Some("gone".to_string());
    let state = world.submit(&mut s, "hi", vec![]);
    assert_eq!(
        world.log,
        vec!["save user", "load 1", "load gone", "failed Failed to load message"]
    );
    assert_eq!(state.status, MessageStatus::Failed);
    assert_eq!(state.last_error, Some("Failed to load message".to_string()));
}

#[test]
fn a_message_of_the_assistant_is_complete_after_its_commands() {
    let mut world = World::new();
    world.deliveries.push(content("body"));
    let mut s = session(&["read"], Some("proxy"));
    let mut record = Message::new("assistant".to_string(), "earlier".to_string(), None);
    record.fs_commands = Some(vec![cmd("read-file", "/abs/a")]);
    let mut state = MessageState::resubmit(record, "7".to_string());
    assert_eq!(state.message.id, Some("7".to_string()));
    assert_eq!(state.status, MessageStatus::Pending);

    let next = s.process_message(&mut state, Phase::Ready, Event::Begin);
    assert_eq!(state.status, MessageStatus::ProcessingCommands);
    world.run(&mut s, &mut state, next.0, next.1);
    assert_eq!(world.log, vec!["execute proxy read-file /abs/a", "save assistant", "completed"]);
    assert_eq!(state.status, MessageStatus::Completed);
    assert_eq!(state.message.id, Some("1".to_string()));
    assert_eq!(s.head, Some("1".to_string()));
    assert_eq!(state.message.fs_results.as_ref().unwrap()[0].data, Some("body".to_string()));
}

#[test]
fn a_message_of_the_assistant_without_commands_is_complete_at_once() {
    let mut s = session(&[], None);
    let mut state = MessageState::new(Message::new("assistant".to_string(), "x".to_string(), None));
    let next = s.process_message(&mut state, Phase::Ready, Event::Begin);
    assert_eq!(next, (Phase::Finished, Action::Completed));
    assert_eq!(state.status, MessageStatus::Completed);
    assert_eq!(s.head, None);
}

#[test]
fn the_status_shows_the_work_under_way() {
    let mut s = session(&["read"], Some("proxy"));
    let mut state = s.send_message("hi".to_string(), vec![cmd("read-file", "a")]);
    let (phase, action) =
        s.process_message(&mut state, Phase::Submitting, Event::Saved(Ok("1".to_string())));
    assert_eq!(state.status, MessageStatus::ProcessingCommands);
    assert!(matches!(action, Action::Execute(_)));
    let (phase, action) = s.process_message(&mut state, phase, Event::Executed(Delivery::Unreadable));
    assert_eq!(state.status, MessageStatus::ProcessingCommands);
    match action {
        Action::Save(message) => {
            assert_eq!(
                message.fs_results.unwrap()[0].error,
                Some("Invalid response".to_string())
            );
            assert_eq!(message.id, Some("1".to_string()));
        }
        other => panic!("unexpected: {:?}", other),
    }
    let (phase, action) = s.process_message(&mut state, phase, Event::Saved(Ok("2".to_string())));
    assert_eq!(state.status, MessageStatus::GeneratingResponse);
    assert_eq!(action, Action::Load("2".to_string()));
    assert!(matches!(phase, Phase::Assembling { .. }));
}

#[test]
fn an_event_that_is_not_awaited_changes_nothing() {
    let mut s = session(&["read"], Some("proxy"));
    let mut state = s.send_message("hi".to_string(), vec![]);
    let before = state.clone();
    let head = s.head.clone();
    let events = || {
        vec![
            Event::Begin,
            Event::Executed(Delivery::Unreadable),
            Event::Loaded(Err("x".to_string())),
            Event::Generated(Ok("x".to_string())),
        ]
    };
    for event in events() {
        let next = s.process_message(&mut state, Phase::Submitting, event);
        assert_eq!(next, (Phase::Submitting, Action::Ignored));
        assert_eq!(state, before);
        assert_eq!(s.head, head);
    }
    for event in events().into_iter().skip(1) {
        let next = s.process_message(&mut state, Phase::Ready, event);
        assert_eq!(next, (Phase::Ready, Action::Ignored));
    }
    for event in events() {
        let next = s.process_message(&mut state, Phase::Finished, event);
        assert_eq!(next, (Phase::Finished, Action::Ignored));
        assert_eq!(state, before);
    }
    let next = s.process_message(&mut state, Phase::Generating, Event::Saved(Ok("9".to_string())));
    assert_eq!(next, (Phase::Generating, Action::Ignored));
    assert_eq!(s.head, head);
}

#[test]
fn a_retried_message_counts_its_retries() {
    let mut s = session(&[], None);
    let mut state = s.send_message("hi".to_string(), vec![]);
    for expected in 1..=3 {
        let next = s.process_message(
            &mut state,
            Phase::Generating,
            Event::Generated(Err("overloaded".to_string())),
        );
        assert_eq!(next, (Phase::Finished, Action::Failed("overloaded".to_string())));
        assert_eq!(state.status, MessageStatus::Pending);
        assert_eq!(state.retries, expected);
    }
    let next = s.process_message(
        &mut state,
        Phase::Generating,
        Event::Generated(Err("overloaded".to_string())),
    );
    assert_eq!(next.1, Action::Failed("overloaded".to_string()));
    assert_eq!(state.status, MessageStatus::Failed);
    assert_eq!(state.retries, 3);
}
