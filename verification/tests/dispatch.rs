use filesystem_chat::dispatch::{
    report, Call, Delivery, Dispatch, ExecutorRequest, FsResponse, FsResponseData, Plan,
};
use filesystem_chat::message::{FsCommand, FsResult};
use filesystem_chat::render::join;
use filesystem_chat::session::State;

fn state(permissions: &[&str], executor: Option<&str>) -> State {
    State {
        store_id: "store".to_string(),
        fs_proxy_id: executor.map(|e| e.to_string()),
        fs_path: "/root/dir".to_string(),
        permissions: permissions.iter().map(|p| p.to_string()).collect(),
        head: None,
        websocket_port: 1,
        api_key: String::new(),
    }
}

fn cmd(operation: &str, path: &str) -> FsCommand {
    FsCommand {
        operation: operation.to_string(),
        path: path.to_string(),
        content: None,
        old_text: None,
        new_text: None,
    }
}

fn answered(success: bool, data: Option<FsResponseData>, error: Option<&str>) -> Delivery {
    Delivery::Answered(FsResponse { success, data, error: error.map(|e| e.to_string()) })
}

fn failed(operation: &str, path: &str, error: &str) -> FsResult {
    FsResult {
        success: false,
        operation: operation.to_string(),
        path: path.to_string(),
        data: None,
        error: Some(error.to_string()),
    }
}

#[test]
fn joins_with_a_separator() {
    assert_eq!(join(&vec![], ", "), "");
    assert_eq!(join(&vec!["a".to_string()], ", "), "a");
    assert_eq!(join(&vec!["a".to_string(), "b".to_string(), "".to_string()], ", "), "a, b, ");
    assert_eq!(join(&vec!["x".to_string(), "y".to_string()], ""), "xy");
}

#[test]
fn write_without_permission_is_refused() {
    let plan = state(&["read"], Some("proxy")).plan(&cmd("write-file", "x"));
    match plan {
        Plan::Settled(result) => {
            assert!(!result.success);
            assert_eq!(result.operation, "write-file");
            assert_eq!(result.path, "x");
            assert_eq!(result.data, None);
            assert!(result.error.as_ref().unwrap().contains("not permitted"));
            assert_eq!(
                result.error.unwrap(),
                "Operation 'write-file' not permitted, permitted operations: [\"read\"]"
            );
        }
        Plan::Send(_) => panic!("a denied command must not be sent"),
    }
}

#[test]
fn denial_lists_what_is_held() {
    let plan = state(&["read", "delete"], None).plan(&cmd("mystery", "p"));
    assert_eq!(
        plan,
        Plan::Settled(failed(
            "mystery",
            "p",
            "Operation 'mystery' not permitted, permitted operations: [\"read\", \"delete\"]"
        ))
    );
    let plan = state(&[], None).plan(&cmd("read-file", "p"));
    assert_eq!(
        plan,
        Plan::Settled(failed(
            "read-file",
            "p",
            "Operation 'read-file' not permitted, permitted operations: []"
        ))
    );
}

#[test]
fn permitted_command_without_executor_is_refused() {
    let plan = state(&["read"], None).plan(&cmd("read-file", "a.txt"));
    assert_eq!(plan, Plan::Settled(failed("read-file", "a.txt", "executor unavailable")));
}

#[test]
fn permitted_command_is_sent_with_its_path_resolved() {
    let mut command = cmd("write-file", "notes/a.txt");
    command.content = Some("hello".to_string());
    command.old_text = Some("unused".to_string());
    let plan = state(&["write"], Some("proxy-9")).plan(&command);
    assert_eq!(
        plan,
        Plan::Send(Call {
            executor: "proxy-9".to_string(),
            request: ExecutorRequest {
                operation: "write-file".to_string(),
                path: "/root/dir/notes/a.txt".to_string(),
                content: Some("hello".to_string()),
            },
        })
    );
    let plan = state(&["read"], Some("proxy-9")).plan(&cmd("list-files", "."));
    match plan {
        Plan::Send(call) => assert_eq!(call.request.path, "/root/dir"),
        Plan::Settled(_) => panic!("a permitted command must be sent"),
    }
    let plan = state(&["read"], Some("proxy-9")).plan(&cmd("read-file", "/etc/hosts"));
    match plan {
        Plan::Send(call) => assert_eq!(call.request.path, "/etc/hosts"),
        Plan::Settled(_) => panic!("a permitted command must be sent"),
    }
}

#[test]
fn listing_is_joined() {
    let names = vec!["a.txt".to_string(), "b.txt".to_string()];
    let result =
        report(&cmd("list-files", "."), answered(true, Some(FsResponseData::FileList(names)), None));
    assert!(result.success);
    assert_eq!(result.operation, "list-files");
    assert_eq!(result.path, ".");
    assert_eq!(result.data, Some("a.txt, b.txt".to_string()));
    assert_eq!(result.error, None);
}

#[test]
fn empty_listing_is_empty_text() {
    let result = report(
        &cmd("list-files", "d"),
        answered(true, Some(FsResponseData::FileList(vec![])), None),
    );
    assert_eq!(result.data, Some(String::new()));
}

#[test]
fn file_content_is_handed_on() {
    let result = report(
        &cmd("read-file", "a.txt"),
        answered(true, Some(FsResponseData::FileContent("line 1\nline 2".to_string())), None),
    );
    assert!(result.success);
    assert_eq!(result.data, Some("line 1\nline 2".to_string()));
}

#[test]
fn data_of_the_wrong_kind_is_dropped() {
    let names = vec!["a".to_string()];
    let result = report(
        &cmd("read-file", "a"),
        answered(true, Some(FsResponseData::FileList(names.clone())), None),
    );
    assert_eq!(result.data, None);
    let result = report(
        &cmd("list-files", "a"),
        answered(true, Some(FsResponseData::FileContent("x".to_string())), None),
    );
    assert_eq!(result.data, None);
    for operation in ["write-file", "create-dir", "delete-file", "edit-file", "delete-dir", "other"] {
        let result = report(
            &cmd(operation, "a"),
            answered(true, Some(FsResponseData::FileContent("x".to_string())), None),
        );
        assert!(result.success);
        assert_eq!(result.data, None);
        let result = report(
            &cmd(operation, "a"),
            answered(true, Some(FsResponseData::FileList(names.clone())), None),
        );
        assert_eq!(result.data, None);
    }
    let result = report(&cmd("read-file", "a"), answered(true, Some(FsResponseData::Empty), None));
    assert_eq!(result.data, None);
    let result = report(&cmd("read-file", "a"), answered(true, None, None));
    assert_eq!(result.data, None);
}

#[test]
fn success_and_error_are_carried_through() {
    let result = report(&cmd("read-file", "gone"), answered(false, None, Some("no such file")));
    assert_eq!(result, failed("read-file", "gone", "no such file"));
    let result = report(&cmd("read-file", "odd"), answered(true, None, Some("warning")));
    assert!(result.success);
    assert_eq!(result.error, Some("warning".to_string()));
}

#[test]
fn unreadable_and_undelivered_give_failed_results() {
    assert_eq!(
        report(&cmd("read-file", "a"), Delivery::Unreadable),
        failed("read-file", "a", "Invalid response")
    );
    assert_eq!(
        report(&cmd("read-file", "a"), Delivery::Failed("actor not found".to_string())),
        failed("read-file", "a", "Request failed: actor not found")
    );
}

#[test]
fn dispatch_gives_one_result_per_command_in_order() {
    let session = state(&["read"], Some("proxy"));
    let commands = vec![
        cmd("write-file", "w"),
        cmd("read-file", "r1"),
        cmd("unknown", "u"),
        cmd("delete-dir", "d"),
        cmd("list-files", "."),
    ];
    let dispatch = Dispatch::new(commands.clone());
    assert!(!dispatch.is_done());

    let (dispatch, call) = dispatch.advance(&session);
    let call = call.unwrap();
    assert_eq!(call.request.operation, "read-file");
    assert_eq!(call.request.path, "/root/dir/r1");
    assert!(!dispatch.is_done());

    // Asking again without an answer asks for the same call.
    let (dispatch, again) = dispatch.advance(&session);
    assert_eq!(again, Some(call));

    let dispatch = dispatch.supply(
        &session,
        answered(true, Some(FsResponseData::FileContent("body".to_string())), None),
    );
    let (dispatch, call) = dispatch.advance(&session);
    let call = call.unwrap();
    assert_eq!(call.executor, "proxy");
    assert_eq!(call.request.operation, "list-files");
    assert_eq!(call.request.path, "/root/dir");

    let dispatch = dispatch.supply(&session, Delivery::Failed("timeout".to_string()));
    let (dispatch, call) = dispatch.advance(&session);
    assert_eq!(call, None);
    assert!(dispatch.is_done());

    let results = dispatch.finish();
    assert_eq!(results.len(), commands.len());
    for (command, result) in commands.iter().zip(results.iter()) {
        assert_eq!(command.operation, result.operation);
        assert_eq!(command.path, result.path);
    }
    assert!(results[0].error.as_ref().unwrap().contains("not permitted"));
    assert_eq!(results[1].data, Some("body".to_string()));
    assert!(results[1].success);
    assert!(results[2].error.as_ref().unwrap().contains("not permitted"));
    assert!(results[3].error.as_ref().unwrap().contains("not permitted"));
    assert_eq!(results[4], failed("list-files", ".", "Request failed: timeout"));
}

#[test]
fn dispatch_of_nothing_is_done_at_once() {
    let session = state(&["read"], Some("proxy"));
    let dispatch = Dispatch::new(vec![]);
    assert!(dispatch.is_done());
    let (dispatch, call) = dispatch.advance(&session);
    assert_eq!(call, None);
    let dispatch = dispatch.supply(&session, Delivery::Unreadable);
    assert_eq!(dispatch.finish(), vec![]);
}

#[test]
fn dispatch_without_executor_sends_nothing() {
    let session = state(&["read", "write", "delete"], None);
    let commands = vec![cmd("read-file", "a"), cmd("write-file", "b"), cmd("nope", "c")];
    let (dispatch, call) = Dispatch::new(commands).advance(&session);
    assert_eq!(call, None);
    let results = dispatch.finish();
    assert_eq!(results.len(), 3);
    assert_eq!(results[0], failed("read-file", "a", "executor unavailable"));
    assert_eq!(results[1], failed("write-file", "b", "executor unavailable"));
    assert!(results[2].error.as_ref().unwrap().contains("not permitted"));
}

#[test]
fn a_delivery_that_was_not_asked_for_is_passed_over() {
    let session = state(&[], Some("proxy"));
    let dispatch = Dispatch::new(vec![cmd("read-file", "a")]);
    // The command is one that is refused: no call is pending for it.
    let dispatch = dispatch.supply(&session, answered(true, None, None));
    assert!(!dispatch.is_done());
    let (dispatch, call) = dispatch.advance(&session);
    assert_eq!(call, None);
    let results = dispatch.finish();
    assert_eq!(results.len(), 1);
    assert!(!results[0].success);
}
