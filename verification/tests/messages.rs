use llm_agent::api::llm::openai::completion::common::{
    OpenAICompletionMessage, OpenAICompletionMessageRole, OpenAICompletionToolCall,
    OpenAICompletionToolFunctionCall,
};
use llm_agent::conversation_message::message::{IntoMessage, Message, MessageContents, MessageType};
use llm_agent::conversation_message::tool_call::{ToolCallRequestMessage, ToolKind};
use llm_agent::message::tool_call::ToolKind as Old;

fn text(t: MessageType, s: &str, id: Option<&str>) -> Message {
    Message {
        message_type: t,
        contents: MessageContents::String(s.to_string()),
        tool_call_id: id.map(|s| s.to_string()),
    }
}

fn contents_text(m: &Message) -> String {
    match &m.contents {
        MessageContents::String(s) => s.clone(),
        MessageContents::ToolCallRequests(_) => panic!("expected text"),
    }
}

#[test]
fn tool_names_round_trip() {
    for k in [
        ToolKind::FsLs,
        ToolKind::FsPwd,
        ToolKind::FsRead,
        ToolKind::FsWrite,
        ToolKind::EnvCurrentTime,
        ToolKind::Unknown,
    ] {
        assert_eq!(ToolKind::from_string(k.to_string()), k);
    }
}

#[test]
fn tool_names() {
    assert_eq!(ToolKind::FsLs.to_string(), "fs_ls");
    assert_eq!(ToolKind::FsPwd.to_string(), "fs_pwd");
    assert_eq!(ToolKind::FsRead.to_string(), "fs_read");
    assert_eq!(ToolKind::FsWrite.to_string(), "fs_write");
    assert_eq!(ToolKind::EnvCurrentTime.to_string(), "env_current_time");
    assert_eq!(ToolKind::Unknown.to_string(), "unknown");
    assert_eq!(ToolKind::from_string("rm".to_string()), ToolKind::Unknown);
    assert_eq!(ToolKind::from_string("FS_LS".to_string()), ToolKind::Unknown);
}

#[test]
fn legacy_tool_names() {
    assert_eq!(Old::from_string("fs_ls".to_string()), Old::Ls);
    assert_eq!(Old::from_string("fs_pwd".to_string()), Old::Pwd);
    assert_eq!(Old::from_string("fs_read".to_string()), Old::Read);
    assert_eq!(Old::from_string("fs_write".to_string()), Old::Write);
    assert_eq!(Old::from_string("env_current_time".to_string()), Old::Unknown);
}

#[test]
fn contents_as_text() {
    let contents = MessageContents::ToolCallRequests(vec![
        ToolCallRequestMessage {
            id: "c1".to_string(),
            tool: ToolKind::FsLs,
            parameters: "{\"path\":\".\"}".to_string(),
        },
        ToolCallRequestMessage {
            id: "c2".to_string(),
            tool: ToolKind::Unknown,
            parameters: "{}".to_string(),
        },
    ]);
    assert_eq!(
        contents.into_string(),
        "[{\"id\":\"c1\",\"tool\":\"fs_ls\",\"parameters\":\"{\\\"path\\\":\\\".\\\"}\"},{\"id\":\"c2\",\"tool\":\"unknown\",\"parameters\":\"{}\"}]"
    );
    assert_eq!(MessageContents::ToolCallRequests(vec![]).into_string(), "[]");
    assert_eq!(MessageContents::String("plain".to_string()).into_string(), "plain");
}

#[test]
fn api_roles_become_message_types() {
    let m = OpenAICompletionMessage {
        role: OpenAICompletionMessageRole::Tool,
        content: Some("done".to_string()),
        tool_call_id: Some("c9".to_string()),
        tool_calls: None,
    }
    .into_message();
    assert_eq!(m.message_type, MessageType::ToolCallResponse);
    assert_eq!(contents_text(&m), "done");
    assert!(m.tool_call_id.is_none());

    let m = OpenAICompletionMessage {
        role: OpenAICompletionMessageRole::Assistant,
        content: None,
        tool_call_id: None,
        tool_calls: None,
    }
    .into_message();
    assert_eq!(m.message_type, MessageType::LLM);
    assert_eq!(contents_text(&m), "");

    let m = OpenAICompletionMessage {
        role: OpenAICompletionMessageRole::System,
        content: Some("s".to_string()),
        tool_call_id: None,
        tool_calls: None,
    }
    .into_message();
    assert_eq!(m.message_type, MessageType::System);

    let m = OpenAICompletionMessage {
        role: OpenAICompletionMessageRole::User,
        content: Some("u".to_string()),
        tool_call_id: None,
        tool_calls: None,
    }
    .into_message();
    assert_eq!(m.message_type, MessageType::User);
    assert_eq!(contents_text(&m), "u");
}

#[test]
fn assistant_tool_calls_become_requests() {
    let m = OpenAICompletionMessage {
        role: OpenAICompletionMessageRole::Assistant,
        content: Some("ignored".to_string()),
        tool_call_id: None,
        tool_calls: Some(vec![OpenAICompletionToolCall {
            id: "call_1".to_string(),
            call_type: "function".to_string(),
            function: OpenAICompletionToolFunctionCall {
                name: "fs_read".to_string(),
                arguments: "{\"path\":\"a\"}".to_string(),
            },
        }]),
    }
    .into_message();
    assert_eq!(m.message_type, MessageType::ToolCallRequest);
    match &m.contents {
        MessageContents::ToolCallRequests(rs) => {
            assert_eq!(rs.len(), 1);
            assert_eq!(rs[0].id, "call_1");
            assert_eq!(rs[0].tool, ToolKind::FsRead);
            assert_eq!(rs[0].parameters, "{\"path\":\"a\"}");
        }
        _ => panic!("expected requests"),
    }
}

#[test]
fn messages_to_api_form() {
    let api = OpenAICompletionMessage::from(text(MessageType::LLM, "hi", Some("x")));
    assert_eq!(api.role, OpenAICompletionMessageRole::Assistant);
    assert_eq!(api.content.as_deref(), Some("hi"));
    assert_eq!(api.tool_call_id.as_deref(), Some("x"));
    assert!(api.tool_calls.is_none());

    let api = OpenAICompletionMessage::from(text(MessageType::ToolCallResponse, "r", Some("c1")));
    assert_eq!(api.role, OpenAICompletionMessageRole::Tool);
    assert_eq!(api.tool_call_id.as_deref(), Some("c1"));

    let api = OpenAICompletionMessage::from(Message {
        message_type: MessageType::ToolCallRequest,
        contents: MessageContents::ToolCallRequests(vec![ToolCallRequestMessage {
            id: "c1".to_string(),
            tool: ToolKind::EnvCurrentTime,
            parameters: "{}".to_string(),
        }]),
        tool_call_id: None,
    });
    assert_eq!(api.role, OpenAICompletionMessageRole::Assistant);
    assert!(api.content.is_none());
    let calls = api.tool_calls.unwrap();
    assert_eq!(calls.len(), 1);
    assert_eq!(calls[0].id, "c1");
    assert_eq!(calls[0].call_type, "function");
    assert_eq!(calls[0].function.name, "env_current_time");
    assert_eq!(calls[0].function.arguments, "{}");
}

#[test]
fn message_round_trip_drops_call_id() {
    let original = text(MessageType::User, "hello", Some("id7"));
    let back = OpenAICompletionMessage::from(original.duplicate()).into_message();
    assert_eq!(back.message_type, MessageType::User);
    assert_eq!(contents_text(&back), "hello");
    assert!(back.tool_call_id.is_none());

    let original = Message {
        message_type: MessageType::ToolCallRequest,
        contents: MessageContents::ToolCallRequests(vec![ToolCallRequestMessage {
            id: "k".to_string(),
            tool: ToolKind::FsWrite,
            parameters: "{\"path\":\"p\"}".to_string(),
        }]),
        tool_call_id: None,
    };
    let back = OpenAICompletionMessage::from(original).into_message();
    match back.contents {
        MessageContents::ToolCallRequests(rs) => {
            assert_eq!(rs.len(), 1);
            assert_eq!(rs[0].id, "k");
            assert_eq!(rs[0].tool, ToolKind::FsWrite);
            assert_eq!(rs[0].parameters, "{\"path\":\"p\"}");
        }
        _ => panic!("expected requests"),
    }
}
