use filesystem_chat::generate::{
    read_response, response_text, GenerationRequest, Turn, GENERATION_FAILED, MAX_OUTPUT_TOKENS,
};
use filesystem_chat::json::Json;
use filesystem_chat::message::{FsResult, Message};
use filesystem_chat::render::render_recent;
use filesystem_chat::session::State;

fn session(root: &str, permissions: &[&str]) -> State {
    State {
        store_id: "store".to_string(),
        fs_proxy_id: None,
        fs_path: root.to_string(),
        permissions: permissions.iter().map(|p| p.to_string()).collect(),
        head: None,
        websocket_port: 1,
        api_key: String::new(),
    }
}

fn turn(role: &str, content: &str) -> Turn {
    Turn { role: role.to_string(), content: content.to_string() }
}

fn with_results(role: &str, content: &str, path: &str) -> Message {
    let mut message = Message::new(role.to_string(), content.to_string(), None);
    message.fs_results = Some(vec![FsResult {
        success: true,
        operation: "read-file".to_string(),
        path: path.to_string(),
        data: Some("data".to_string()),
        error: None,
    }]);
    message
}

#[test]
fn preamble_is_the_fixed_text_with_root_and_permissions() {
    let root = "/srv/data";
    let permissions = vec!["read".to_string(), "write".to_string()];
    let expected = format!(
        r#"
            The assistant aims to be an intelligent, thoughtful, and helpful conversational partner.
            The assistant has access to filesystem commands, if they contribute to the conversation.

            <command-specification>
            Commands are in XML format and are case-sensitive. Here are the available commands:
- read-file: Read contents of a file
  Example: <fs-command><operation>read-file</operation><path>example.txt</path></fs-command>

- write-file: Write content to a file
  Example: <fs-command><operation>write-file</operation><path>new.txt</path><content>Hello World</content></fs-command>

- list-files: List contents of a directory
  Example: <fs-command><operation>list-files</operation><path>.</path></fs-command>

- create-dir: Create a new directory
  Example: <fs-command><operation>create-dir</operation><path>new_folder</path></fs-command>

- delete-file: Delete a file
  Example: <fs-command><operation>delete-file</operation><path>old.txt</path></fs-command>

- edit-file: Edit content in a file by replacing text
  Example: <fs-command><operation>edit-file</operation><path>file.txt</path><old_text>text to find</old_text><new_text>replacement text</new_text></fs-command>

- delete-dir: Delete a directory
  Example: <fs-command><operation>delete-dir</operation><path>old_folder</path></fs-command>

Current filesystem root path: {}
Current permissions: {:?}

Remember to:
1. Be explicit about file operations you're suggesting
2. Use exact XML command syntax in your suggestions
3. Consider the current permissions before suggesting operations
4. Explain what each command will do before suggesting it
5. Handle operation results appropriately in follow-up messages

Most importantly, if the assistant is writing files, whatever it writes will be written directly to the filesystem without confirmation.
Be sure to write out only entire files, or information will be lost.
</command-specification>

Most importantly, the assistant should have fun and enjoy the conversation!
"#,
        root, permissions
    );
    assert_eq!(session(root, &["read", "write"]).system_preamble(), expected);
}

#[test]
fn preamble_names_every_command() {
    let text = session("/r", &[]).system_preamble();
    for operation in [
        "read-file",
        "write-file",
        "list-files",
        "create-dir",
        "delete-file",
        "edit-file",
        "delete-dir",
    ] {
        assert!(text.contains(&format!("- {}: ", operation)));
        assert!(text.contains(&format!("<fs-command><operation>{}</operation><path>", operation)));
    }
    assert!(text.contains("Current filesystem root path: /r\nCurrent permissions: []\n"));
}

#[test]
fn request_for_an_empty_history() {
    let s = session("/r", &["read"]);
    let request = s.generation_request(&vec![]);
    assert_eq!(
        request,
        GenerationRequest { system: s.system_preamble(), messages: vec![], max_tokens: 8096 }
    );
    assert_eq!(MAX_OUTPUT_TOKENS, 8096);
}

#[test]
fn turns_follow_the_history() {
    let s = session("/r", &["read"]);
    let history = vec![
        Message::new("user".to_string(), "one".to_string(), None),
        Message::new("assistant".to_string(), "two".to_string(), Some("1".to_string())),
        Message::new("user".to_string(), "three".to_string(), Some("2".to_string())),
    ];
    let request = s.generation_request(&history);
    assert_eq!(
        request.messages,
        vec![turn("user", "one"), turn("assistant", "two"), turn("user", "three")]
    );
    assert_eq!(request.system, s.system_preamble());
}

#[test]
fn report_goes_below_the_turns_of_the_user() {
    let s = session("/r", &["read"]);
    let history = vec![
        Message::new("user".to_string(), "one".to_string(), None),
        with_results("assistant", "two", "a.txt"),
        Message::new("user".to_string(), "three".to_string(), None),
    ];
    let report = render_recent(&history);
    assert!(report.contains("<command-results role=\"assistant\">"));
    let request = s.generation_request(&history);
    assert_eq!(
        request.messages,
        vec![
            turn("user", &format!("one\n\n{}", report)),
            turn("assistant", "two"),
            turn("user", &format!("three\n\n{}", report)),
        ]
    );
}

#[test]
fn results_of_a_single_message_are_not_reported() {
    let s = session("/r", &["read"]);
    let history = vec![with_results("user", "one", "a.txt")];
    assert_eq!(s.generation_request(&history).messages, vec![turn("user", "one")]);
}

fn object(members: Vec<(&str, Json)>) -> Json {
    Json::Object(members.into_iter().map(|(k, v)| (k.to_string(), v)).collect())
}

#[test]
fn reply_is_the_text_of_the_first_content_element() {
    let reply = object(vec![
        ("id", Json::Text("msg".to_string())),
        (
            "content",
            Json::Array(vec![
                object(vec![
                    ("type", Json::Text("text".to_string())),
                    ("text", Json::Text("Hello!".to_string())),
                ]),
                object(vec![("text", Json::Text("second".to_string()))]),
            ]),
        ),
    ]);
    assert_eq!(response_text(&reply), Some("Hello!".to_string()));
}

#[test]
fn reply_of_another_shape_carries_nothing() {
    assert_eq!(response_text(&Json::Null), None);
    assert_eq!(response_text(&object(vec![])), None);
    assert_eq!(response_text(&object(vec![("content", Json::Array(vec![]))])), None);
    assert_eq!(response_text(&object(vec![("content", Json::Text("x".to_string()))])), None);
    assert_eq!(
        response_text(&object(vec![("content", Json::Array(vec![Json::Text("x".to_string())]))])),
        None
    );
    assert_eq!(
        response_text(&object(vec![(
            "content",
            Json::Array(vec![object(vec![("text", Json::Number(Some(1)))])])
        )])),
        None
    );
    assert_eq!(
        response_text(&object(vec![(
            "content",
            Json::Array(vec![
                object(vec![("type", Json::Text("tool".to_string()))]),
                object(vec![("text", Json::Text("late".to_string()))]),
            ])
        )])),
        None
    );
}

#[test]
fn reads_the_reply_from_the_body() {
    let body = br#"{"content":[{"type":"text","text":"Hi <fs-command></fs-command>"}],"role":"assistant"}"#;
    assert_eq!(read_response(&Some(body.to_vec())), Ok("Hi <fs-command></fs-command>".to_string()));
}

#[test]
fn generation_fails_without_a_usable_body() {
    let failed = Err(GENERATION_FAILED.to_string());
    assert_eq!(GENERATION_FAILED, "Failed to generate response");
    assert_eq!(read_response(&None), failed);
    assert_eq!(read_response(&Some(vec![])), failed);
    assert_eq!(read_response(&Some(b"not json".to_vec())), failed);
    assert_eq!(read_response(&Some(br#"{"error":{"type":"overloaded_error"}}"#.to_vec())), failed);
    assert_eq!(read_response(&Some(br#"{"content":[]}"#.to_vec())), failed);
    assert_eq!(read_response(&Some(br#"{"content":[{"text":"a"}]} trailing"#.to_vec())), failed);
}
