use llm_agent::agent_core::conversation::session::{ConversationState, LlmOutcome, ToolOutcome};
use llm_agent::conversation_message::message::{Message, MessageContents, MessageType};
use llm_agent::conversation_message::tool_call::{ToolCallRequestMessage, ToolKind};
use llm_agent::llm::error::{Error, RequestFailure};

fn text(t: MessageType, s: &str) -> Message {
    Message { message_type: t, contents: MessageContents::String(s.to_string()), tool_call_id: None }
}

fn text_of(m: &Message) -> &str {
    match &m.contents {
        MessageContents::String(s) => s.as_str(),
        MessageContents::ToolCallRequests(_) => panic!("expected text"),
    }
}

#[test]
fn user_message_then_llm_call() {
    let mut s = ConversationState::new(vec![], vec![ToolKind::FsLs]);
    assert!(!s.ready_for_llm_call(true));
    let b = s.on_user_message(text(MessageType::User, "hi"));
    assert_eq!(text_of(&b), "hi");
    assert!(s.ready_for_llm_call(true));
    assert!(!s.ready_for_llm_call(false));
    let (history, tools) = s.start_llm_call();
    assert_eq!(history.len(), 1);
    assert_eq!(tools, vec![ToolKind::FsLs]);
    assert!(s.llm_call_in_flight());
    assert!(!s.ready_for_llm_call(true));
    s.on_user_message(text(MessageType::User, "again"));
    assert!(!s.ready_for_llm_call(true));
    let step = s.on_llm_finished(LlmOutcome::Finished(Ok(text(MessageType::LLM, "hello"))));
    assert_eq!(step.broadcast.len(), 1);
    assert!(step.spawn.is_empty());
    assert!(!s.llm_call_in_flight());
    assert_eq!(s.get_message_history().len(), 3);
    assert!(s.ready_for_llm_call(true));
}

#[test]
fn tool_requests_are_spawned_and_results_requeue() {
    let mut s = ConversationState::new(vec![text(MessageType::System, "sys")], vec![]);
    s.on_user_message(text(MessageType::User, "list"));
    s.start_llm_call();
    let request = Message {
        message_type: MessageType::ToolCallRequest,
        contents: MessageContents::ToolCallRequests(vec![
            ToolCallRequestMessage { id: "a".to_string(), tool: ToolKind::FsLs, parameters: "{}".to_string() },
            ToolCallRequestMessage { id: "b".to_string(), tool: ToolKind::FsPwd, parameters: "{}".to_string() },
        ]),
        tool_call_id: None,
    };
    let step = s.on_llm_finished(LlmOutcome::Finished(Ok(request)));
    assert_eq!(step.spawn.len(), 2);
    assert_eq!(step.spawn[0].id, "a");
    assert_eq!(step.spawn[1].tool, ToolKind::FsPwd);
    assert!(!s.ready_for_llm_call(true));
    let step = s.on_tool_finished(ToolOutcome::Finished(text(MessageType::ToolCallResponse, "r1")));
    assert_eq!(step.broadcast.len(), 1);
    assert!(s.ready_for_llm_call(true));
    assert!(!s.ready_for_llm_call(false));
    let step = s.on_tool_finished(ToolOutcome::Panicked("JoinError::Panic(Id(3), ...)".to_string()));
    assert!(step.broadcast.is_empty());
    assert_eq!(s.get_message_history().len(), 4);
}

#[test]
fn failures_are_noticed_not_recorded() {
    let mut s = ConversationState::new(vec![], vec![]);
    s.on_user_message(text(MessageType::User, "q"));
    s.start_llm_call();
    let step = s.on_llm_finished(LlmOutcome::Finished(Err(Error::LLMError("bad \"gateway\"".to_string()))));
    assert_eq!(step.broadcast.len(), 1);
    assert_eq!(step.broadcast[0].message_type, MessageType::System);
    assert_eq!(text_of(&step.broadcast[0]), "An error has occurred: LLMError(\"bad \\\"gateway\\\"\")");
    assert_eq!(s.get_message_history().len(), 1);

    s.on_user_message(text(MessageType::User, "q2"));
    s.start_llm_call();
    let step = s.on_llm_finished(LlmOutcome::Panicked("JoinError::Cancelled(Id(1))".to_string()));
    assert_eq!(text_of(&step.broadcast[0]), "An error has occurred JoinError::Cancelled(Id(1))");
    assert_eq!(s.get_message_history().len(), 2);

    s.on_user_message(text(MessageType::User, "q3"));
    s.start_llm_call();
    let step = s.on_llm_finished(LlmOutcome::Finished(Err(Error::RequestError(RequestFailure {
        display: "error sending request".to_string(),
        debug: "reqwest::Error { kind: Request }".to_string(),
    }))));
    assert_eq!(
        text_of(&step.broadcast[0]),
        "An error has occurred: RequestError(reqwest::Error { kind: Request })"
    );
}

#[test]
fn invalid_choice_count_is_recorded() {
    let mut s = ConversationState::new(vec![], vec![]);
    s.on_user_message(text(MessageType::User, "q"));
    s.start_llm_call();
    let step = s.on_llm_finished(LlmOutcome::Finished(Err(Error::InvalidChoiceCount)));
    assert_eq!(text_of(&step.broadcast[0]), "invalid choice count received in the response");
    let h = s.get_message_history();
    assert_eq!(h.len(), 2);
    assert_eq!(h[1].message_type, MessageType::System);
}

#[test]
fn tools_can_be_replaced() {
    let mut s = ConversationState::new(vec![], vec![ToolKind::FsLs]);
    s.set_tools(vec![ToolKind::FsRead, ToolKind::FsWrite]);
    assert_eq!(s.get_tools(), vec![ToolKind::FsRead, ToolKind::FsWrite]);
}

#[test]
fn llm_error_texts() {
    assert_eq!(Error::InvalidChoiceCount.to_string(), "LLM responded with an invalid choice count");
    assert_eq!(Error::LLMError("x".to_string()).to_string(), "LLM has returned an unexpected response: x");
    assert_eq!(Error::InvalidChoiceCount.to_debug_string(), "InvalidChoiceCount");
    let e = Error::RequestError(RequestFailure { display: "timeout".to_string(), debug: "D".to_string() });
    assert_eq!(e.to_string(), "RequestError: timeout");
    assert_eq!(e.to_debug_string(), "RequestError(D)");
}
