use llm_agent::api::llm::openai::completion::common::{
    OpenAICompletionMessage, OpenAICompletionMessageRole, OpenAICompletionToolCall,
    OpenAICompletionToolFunctionCall,
};
use llm_agent::api::llm::openai::completion::request::{OpenAISimpleToolChoice, OpenAIToolChoice};
use llm_agent::api::llm::openai::completion::response::{
    OpenAICompletionResponse, OpenAICompletionResponseChoice, OpenAICompletionResponseUsage,
};
use llm_agent::api::llm::openai::provider::OpenAIProvider;
use llm_agent::conversation_message::message::{Message, MessageContents, MessageType};
use llm_agent::conversation_message::tool_call::{ToolCallRequestMessage, ToolKind};
use llm_agent::interface::error::Error as InterfaceError;
use llm_agent::interface::tui::app::tui::{input_cursor_position, input_inner_width, lines_height, message_height, rows_fit_check};
use llm_agent::interface::tui::instance::{display_lines, key_action, KeyAction, KeyPress, LineStyle};
use llm_agent::llm::error::Error;
use llm_agent::text::decimal_string;

fn text(t: MessageType, s: &str) -> Message {
    Message { message_type: t, contents: MessageContents::String(s.to_string()), tool_call_id: None }
}

fn choice(content: &str) -> OpenAICompletionResponseChoice {
    OpenAICompletionResponseChoice {
        finish_reason: None,
        index: 0,
        message: OpenAICompletionMessage {
            role: OpenAICompletionMessageRole::User,
            content: Some(content.to_string()),
            tool_call_id: Some("ignored".to_string()),
            tool_calls: None,
        },
    }
}

fn response(choices: Vec<OpenAICompletionResponseChoice>) -> OpenAICompletionResponse {
    OpenAICompletionResponse {
        id: "chatcmpl-1".to_string(),
        model: "m".to_string(),
        object: "chat.completion".to_string(),
        created: 1,
        choices,
        usage: OpenAICompletionResponseUsage { prompt_tokens: 1, completion_tokens: 2, total_tokens: 3 },
    }
}

#[test]
fn provider_defaults() {
    let p = OpenAIProvider::new("gpt".to_string(), "http://h".to_string());
    assert_eq!(p.model, "gpt");
    assert_eq!(p.api_base, "http://h");
    assert_eq!(p.api_key, "");
}

#[test]
fn request_for_conversation() {
    let p = OpenAIProvider::new("gpt".to_string(), "http://h".to_string());
    let history = vec![text(MessageType::System, "be brief"), text(MessageType::User, "hi")];
    let r = p.build_request(&history, &vec![ToolKind::FsLs, ToolKind::EnvCurrentTime]);
    assert_eq!(r.model, "gpt");
    assert_eq!(r.messages.len(), 2);
    assert_eq!(r.messages[0].role, OpenAICompletionMessageRole::System);
    assert_eq!(r.messages[1].content.as_deref(), Some("hi"));
    assert_eq!(r.n, Some(1));
    assert!(r.max_tokens.is_none() && r.max_completion_tokens.is_none() && r.parallel_tool_calls.is_none());
    let tools = r.tools.unwrap();
    assert_eq!(tools.len(), 2);
    assert_eq!(tools[1].function.name, "env_current_time");
    assert!(matches!(r.tool_choice, Some(OpenAIToolChoice::Simple(OpenAISimpleToolChoice::Auto))));
}

#[test]
fn replies() {
    let m = OpenAIProvider::handle_response(b"{}", Some(response(vec![choice("answer")]))).unwrap();
    assert_eq!(m.message_type, MessageType::LLM);
    assert!(matches!(&m.contents, MessageContents::String(s) if s == "answer"));
    assert!(m.tool_call_id.is_none());

    let e = OpenAIProvider::handle_response(b"{}", Some(response(vec![choice("a"), choice("b")]))).unwrap_err();
    assert!(matches!(e, Error::InvalidChoiceCount));
    let e = OpenAIProvider::handle_response(b"{}", Some(response(vec![]))).unwrap_err();
    assert!(matches!(e, Error::InvalidChoiceCount));

    let e = OpenAIProvider::handle_response(b"bad \xff gateway", None).unwrap_err();
    assert!(matches!(e, Error::LLMError(ref s) if s == "bad \u{FFFD} gateway"));

    let mut c = choice("");
    c.message.tool_calls = Some(vec![OpenAICompletionToolCall {
        id: "t1".to_string(),
        call_type: "function".to_string(),
        function: OpenAICompletionToolFunctionCall { name: "fs_pwd".to_string(), arguments: "{}".to_string() },
    }]);
    let m = OpenAIProvider::handle_response(b"", Some(response(vec![c]))).unwrap();
    assert_eq!(m.message_type, MessageType::ToolCallRequest);
}

#[test]
fn key_actions() {
    assert!(matches!(key_action(KeyPress::CtrlC, "x"), KeyAction::Quit));
    assert!(matches!(key_action(KeyPress::Enter, ""), KeyAction::Ignore));
    assert!(matches!(key_action(KeyPress::Other, ""), KeyAction::Edit));
    match key_action(KeyPress::Enter, "hello") {
        KeyAction::Submit { message, echo } => {
            assert_eq!(message.message_type, MessageType::User);
            assert!(matches!(&message.contents, MessageContents::String(s) if s == "hello"));
            assert_eq!(echo.text, "> hello");
            assert_eq!(echo.style, LineStyle::Cyan);
        }
        _ => panic!("expected submit"),
    }
}

#[test]
fn printed_lines() {
    let lines = display_lines(&text(MessageType::LLM, "answer"));
    assert_eq!(lines.len(), 1);
    assert_eq!(lines[0].text, "answer");
    assert_eq!(lines[0].style, LineStyle::Plain);
    assert!(display_lines(&text(MessageType::User, "u")).is_empty());
    assert!(display_lines(&text(MessageType::System, "s")).is_empty());
    let lines = display_lines(&text(MessageType::ToolCallResponse, "{}"));
    assert_eq!(lines[0].text, "ToolResponse: {}");
    assert_eq!(lines[0].style, LineStyle::DarkGray);
    let m = Message {
        message_type: MessageType::ToolCallRequest,
        contents: MessageContents::ToolCallRequests(vec![ToolCallRequestMessage {
            id: "i".to_string(),
            tool: ToolKind::FsRead,
            parameters: "{}".to_string(),
        }]),
        tool_call_id: None,
    };
    let lines = display_lines(&m);
    assert_eq!(lines[0].text, "ToolCall: {\"id\":\"i\",\"tool\":\"fs_read\",\"parameters\":\"{}\"}");
}

#[test]
fn message_heights() {
    assert_eq!(message_height("", 10), Some(1));
    assert_eq!(message_height("abc", 10), Some(1));
    assert_eq!(message_height("abcdefghijk", 10), Some(2));
    assert_eq!(message_height("a\n\nb", 10), Some(3));
    assert_eq!(message_height("界界界", 4), Some(2));
    assert_eq!(message_height("abc", 0), None);
    assert_eq!(message_height("", 0), Some(1));
    assert!(rows_fit_check(&vec![0, 0, 0], 0));
    assert_eq!(lines_height(&vec![0, 0, 0], 0), 3);
    assert!(!rows_fit_check(&vec![0, 1], 0));
    assert!(!rows_fit_check(&vec![65535], 2));
    assert_eq!(lines_height(&vec![0, 20, 21], 10), 1 + 2 + 3);
    assert_eq!(lines_height(&vec![65536 + 5], 10), 1);
}

#[test]
fn input_layout() {
    assert_eq!(input_inner_width(80), 77);
    assert_eq!(input_inner_width(2), 0);
    assert_eq!(input_inner_width(3), 0);
    assert_eq!(input_cursor_position(0, 10, 5, 0), (6, 11));
    assert_eq!(input_cursor_position(2, 0, 5, 7), (3, 1));
}

#[test]
fn decimal_numbers() {
    assert_eq!(decimal_string(0), "0");
    assert_eq!(decimal_string(18446744073709551615), "18446744073709551615");
}

#[test]
fn interface_error_texts() {
    assert_eq!(InterfaceError::SendError.to_string(), "SendError");
    assert_eq!(InterfaceError::StdIoError("broken pipe".to_string()).to_string(), "IoError: broken pipe");
}
