use filesystem_chat::events::{inbound, read_inbound, Inbound};
use filesystem_chat::json::Json;

#[test]
fn reads_a_sent_message() {
    assert_eq!(
        read_inbound(r#"{"type":"send_message","content":"hello","fs_commands":[]}"#),
        Inbound::SendMessage { content: "hello".to_string() }
    );
    assert_eq!(
        read_inbound(r#"{"content":"","type":"send_message"}"#),
        Inbound::SendMessage { content: String::new() }
    );
}

#[test]
fn reads_a_retry() {
    assert_eq!(
        read_inbound(r#"{"type":"retry_message","messageId":"abc"}"#),
        Inbound::RetryMessage { message_id: "abc".to_string() }
    );
}

#[test]
fn reads_a_request_for_the_conversation() {
    assert_eq!(read_inbound(r#"{"type":"get_messages"}"#), Inbound::GetMessages);
    assert_eq!(read_inbound(r#"{"type":"get_messages","content":7}"#), Inbound::GetMessages);
}

#[test]
fn anything_else_is_unknown() {
    for text in [
        "",
        "send_message",
        "[]",
        r#"{"type":"send_message"}"#,
        r#"{"type":"send_message","content":5}"#,
        r#"{"type":"retry_message","message_id":"abc"}"#,
        r#"{"type":"retry_message","messageId":null}"#,
        r#"{"type":"delete_everything"}"#,
        r#"{"type":7}"#,
        r#"{"Type":"get_messages"}"#,
        r#"{"type":"get_messages"} {"type":"get_messages"}"#,
    ] {
        assert_eq!(read_inbound(text), Inbound::Unknown);
    }
}

#[test]
fn the_first_member_of_a_name_counts() {
    let document = Json::Object(vec![
        ("type".to_string(), Json::Text("get_messages".to_string())),
        ("type".to_string(), Json::Text("send_message".to_string())),
    ]);
    assert_eq!(inbound(&document), Inbound::GetMessages);
    assert_eq!(inbound(&Json::Null), Inbound::Unknown);
}
