//! The chat completion message of the OpenAI API, and its conversion to and
//! from the conversation's messages.

use crate::conversation_message::message::{
    opt_string_view, IntoMessage, Message, MessageContents, MessageContentsView, MessageType,
    MessageView,
};
use crate::conversation_message::tool_call::{
    lemma_tool_name_round_trip, tool_kind_name, tool_kind_of_name, ToolCallRequestMessage,
    ToolCallRequestView, ToolKind,
};
use vstd::prelude::*;
use vstd::string::StringExecFns;

verus! {

/// The author of a chat completion message.
#[derive(Clone, Copy, Debug, PartialEq, Eq, Structural)]
pub enum OpenAICompletionMessageRole {
    System,
    User,
    Assistant,
    Tool,
    Function,
}

/// A chat completion message.
#[derive(Debug)]
pub struct OpenAICompletionMessage {
    pub role: OpenAICompletionMessageRole,
    pub content: Option<String>,
    pub tool_call_id: Option<String>,
    pub tool_calls: Option<Vec<OpenAICompletionToolCall>>,
}

/// A tool call inside an assistant message; its type is always "function".
#[derive(Debug)]
pub struct OpenAICompletionToolCall {
    pub id: String,
    pub call_type: String,
    pub function: OpenAICompletionToolFunctionCall,
}

/// The function a tool call names, with its JSON arguments.
#[derive(Debug)]
pub struct OpenAICompletionToolFunctionCall {
    pub name: String,
    pub arguments: String,
}

pub struct OpenAICompletionToolCallView {
    pub id: Seq<char>,
    pub call_type: Seq<char>,
    pub name: Seq<char>,
    pub arguments: Seq<char>,
}

impl View for OpenAICompletionToolCall {
    type V = OpenAICompletionToolCallView;

    open spec fn view(&self) -> OpenAICompletionToolCallView {
        OpenAICompletionToolCallView {
            id: self.id@,
            call_type: self.call_type@,
            name: self.function.name@,
            arguments: self.function.arguments@,
        }
    }
}

pub struct OpenAICompletionMessageView {
    pub role: OpenAICompletionMessageRole,
    pub content: Option<Seq<char>>,
    pub tool_call_id: Option<Seq<char>>,
    pub tool_calls: Option<Seq<OpenAICompletionToolCallView>>,
}

impl View for OpenAICompletionMessage {
    type V = OpenAICompletionMessageView;

    open spec fn view(&self) -> OpenAICompletionMessageView {
        OpenAICompletionMessageView {
            role: self.role,
            content: opt_string_view(self.content),
            tool_call_id: opt_string_view(self.tool_call_id),
            tool_calls: match self.tool_calls {
                Some(v) => Some(v@.map_values(|c: OpenAICompletionToolCall| c@)),
                None => None,
            },
        }
    }
}

/// The content, or the empty string where there is none.
pub open spec fn content_or_empty(content: Option<Seq<char>>) -> Seq<char> {
    match content {
        Some(s) => s,
        None => Seq::empty(),
    }
}

/// The conversation's request for an API tool call: the function's name
/// read as a tool.
pub open spec fn call_to_request(c: OpenAICompletionToolCallView) -> ToolCallRequestView {
    ToolCallRequestView { id: c.id, tool: tool_kind_of_name(c.name), parameters: c.arguments }
}

/// The API tool call for a request of the conversation.
pub open spec fn request_to_call(r: ToolCallRequestView) -> OpenAICompletionToolCallView {
    OpenAICompletionToolCallView {
        id: r.id,
        call_type: "function"@,
        name: tool_kind_name(r.tool),
        arguments: r.parameters,
    }
}

/// The conversation message that an API message stands for.  An assistant
/// message with tool calls is a tool call request; the tool call id is
/// never carried over.
pub open spec fn completion_message_view(m: OpenAICompletionMessageView) -> MessageView {
    let text = content_or_empty(m.content);
    match m.role {
        OpenAICompletionMessageRole::System => MessageView {
            message_type: MessageType::System,
            contents: MessageContentsView::String(text),
            tool_call_id: None,
        },
        OpenAICompletionMessageRole::User => MessageView {
            message_type: MessageType::User,
            contents: MessageContentsView::String(text),
            tool_call_id: None,
        },
        OpenAICompletionMessageRole::Assistant => if m.tool_calls is Some {
            MessageView {
                message_type: MessageType::ToolCallRequest,
                contents: MessageContentsView::ToolCallRequests(
                    m.tool_calls->0.map_values(|c: OpenAICompletionToolCallView| call_to_request(c)),
                ),
                tool_call_id: None,
            }
        } else {
            MessageView {
                message_type: MessageType::LLM,
                contents: MessageContentsView::String(text),
                tool_call_id: None,
            }
        },
        OpenAICompletionMessageRole::Tool => MessageView {
            message_type: MessageType::ToolCallResponse,
            contents: MessageContentsView::String(text),
            tool_call_id: None,
        },
        OpenAICompletionMessageRole::Function => arbitrary(),
    }
}

/// Whether a conversation message can be sent: a tool call request must
/// carry requests, not text.
pub open spec fn message_is_sendable(m: MessageView) -> bool {
    m.message_type == MessageType::ToolCallRequest ==> m.contents is ToolCallRequests
}

/// The API message for a conversation message.  Text contents are sent as
/// they are, request lists as their JSON; a tool call request becomes an
/// assistant message with tool calls and no content.
pub open spec fn message_to_completion_view(m: MessageView) -> OpenAICompletionMessageView {
    let plain = |role: OpenAICompletionMessageRole|
        OpenAICompletionMessageView {
            role,
            content: Some(m.contents.text()),
            tool_call_id: m.tool_call_id,
            tool_calls: None,
        };
    match m.message_type {
        MessageType::System => plain(OpenAICompletionMessageRole::System),
        MessageType::User => plain(OpenAICompletionMessageRole::User),
        MessageType::LLM => plain(OpenAICompletionMessageRole::Assistant),
        MessageType::ToolCallRequest => OpenAICompletionMessageView {
            role: OpenAICompletionMessageRole::Assistant,
            content: None,
            tool_call_id: m.tool_call_id,
            tool_calls: Some(
                m.contents->ToolCallRequests_0.map_values(|r: ToolCallRequestView| request_to_call(r)),
            ),
        },
        MessageType::ToolCallResponse => plain(OpenAICompletionMessageRole::Tool),
    }
}

fn string_or_empty(s: Option<String>) -> (r: String)
    ensures
        r@ == content_or_empty(opt_string_view(s)),
{
    match s {
        Some(s) => s,
        None => String::new(),
    }
}

fn calls_to_requests(calls: &Vec<OpenAICompletionToolCall>) -> (r: Vec<ToolCallRequestMessage>)
    ensures
        r@.map_values(|q: ToolCallRequestMessage| q@) == calls@.map_values(
            |c: OpenAICompletionToolCall| c@,
        ).map_values(|c: OpenAICompletionToolCallView| call_to_request(c)),
{
    let ghost target = calls@.map_values(|c: OpenAICompletionToolCall| c@).map_values(
        |c: OpenAICompletionToolCallView| call_to_request(c),
    );
    let mut r: Vec<ToolCallRequestMessage> = Vec::new();
    let n = calls.len();
    let mut i: usize = 0;
    while i < n
        invariant
            n == calls@.len(),
            0 <= i <= n,
            target == calls@.map_values(|c: OpenAICompletionToolCall| c@).map_values(
                |c: OpenAICompletionToolCallView| call_to_request(c),
            ),
            r@.len() == i,
            forall|j: int| 0 <= j < i ==> #[trigger] r@[j]@ == target[j],
        decreases n - i,
    {
        let call = &calls[i];
        let request = ToolCallRequestMessage {
            id: call.id.clone(),
            tool: ToolKind::from_string(call.function.name.clone()),
            parameters: call.function.arguments.clone(),
        };
        assert(request@ == target[i as int]);
        r.push(request);
        i = i + 1;
    }
    assert(r@.map_values(|q: ToolCallRequestMessage| q@) =~= target);
    r
}

fn requests_to_calls(requests: &Vec<ToolCallRequestMessage>) -> (r: Vec<OpenAICompletionToolCall>)
    ensures
        r@.map_values(|c: OpenAICompletionToolCall| c@) == requests@.map_values(
            |q: ToolCallRequestMessage| q@,
        ).map_values(|q: ToolCallRequestView| request_to_call(q)),
{
    let ghost target = requests@.map_values(|q: ToolCallRequestMessage| q@).map_values(
        |q: ToolCallRequestView| request_to_call(q),
    );
    let mut r: Vec<OpenAICompletionToolCall> = Vec::new();
    let n = requests.len();
    let mut i: usize = 0;
    while i < n
        invariant
            n == requests@.len(),
            0 <= i <= n,
            target == requests@.map_values(|q: ToolCallRequestMessage| q@).map_values(
                |q: ToolCallRequestView| request_to_call(q),
            ),
            r@.len() == i,
            forall|j: int| 0 <= j < i ==> #[trigger] r@[j]@ == target[j],
        decreases n - i,
    {
        let request = &requests[i];
        let call = OpenAICompletionToolCall {
            id: request.id.clone(),
            call_type: String::from_str("function"),
            function: OpenAICompletionToolFunctionCall {
                name: request.tool.to_string(),
                arguments: request.parameters.clone(),
            },
        };
        assert(call@ == target[i as int]);
        r.push(call);
        i = i + 1;
    }
    assert(r@.map_values(|c: OpenAICompletionToolCall| c@) =~= target);
    r
}

impl IntoMessage for OpenAICompletionMessage {
    open spec fn into_message_requires(&self) -> bool {
        self.role != OpenAICompletionMessageRole::Function
    }

    /// The conversation message this API message stands for.  Function
    /// messages are not supported.
    fn into_message(self) -> (m: Message)
        ensures
            m@ == completion_message_view(self@),
    {
        match self.role {
            OpenAICompletionMessageRole::System => Message {
                message_type: MessageType::System,
                contents: MessageContents::String(string_or_empty(self.content)),
                tool_call_id: None,
            },
            OpenAICompletionMessageRole::User => Message {
                message_type: MessageType::User,
                contents: MessageContents::String(string_or_empty(self.content)),
                tool_call_id: None,
            },
            OpenAICompletionMessageRole::Assistant => {
                match self.tool_calls {
                    Some(calls) => Message {
                        message_type: MessageType::ToolCallRequest,
                        contents: MessageContents::ToolCallRequests(calls_to_requests(&calls)),
                        tool_call_id: None,
                    },
                    None => Message {
                        message_type: MessageType::LLM,
                        contents: MessageContents::String(string_or_empty(self.content)),
                        tool_call_id: None,
                    },
                }
            },
            OpenAICompletionMessageRole::Tool => Message {
                message_type: MessageType::ToolCallResponse,
                contents: MessageContents::String(string_or_empty(self.content)),
                tool_call_id: None,
            },
            OpenAICompletionMessageRole::Function => {
                proof {
                    assert(false);
                }
                Message {
                    message_type: MessageType::System,
                    contents: MessageContents::String(String::new()),
                    tool_call_id: None,
                }
            },
        }
    }
}

impl OpenAICompletionMessage {
    /// The API message for a conversation message.  A tool call request
    /// must carry requests, not text.
    pub fn from(value: Message) -> (r: OpenAICompletionMessage)
        requires
            message_is_sendable(value@),
        ensures
            r@ == message_to_completion_view(value@),
    {
        match value.message_type {
            MessageType::System => OpenAICompletionMessage {
                role: OpenAICompletionMessageRole::System,
                content: Some(value.contents.into_string()),
                tool_call_id: value.tool_call_id,
                tool_calls: None,
            },
            MessageType::User => OpenAICompletionMessage {
                role: OpenAICompletionMessageRole::User,
                content: Some(value.contents.into_string()),
                tool_call_id: value.tool_call_id,
                tool_calls: None,
            },
            MessageType::LLM => OpenAICompletionMessage {
                role: OpenAICompletionMessageRole::Assistant,
                content: Some(value.contents.into_string()),
                tool_call_id: value.tool_call_id,
                tool_calls: None,
            },
            MessageType::ToolCallRequest => {
                let calls = match &value.contents {
                    MessageContents::ToolCallRequests(requests) => requests_to_calls(requests),
                    MessageContents::String(_) => {
                        proof {
                            assert(false);
                        }
                        Vec::new()
                    },
                };
                OpenAICompletionMessage {
                    role: OpenAICompletionMessageRole::Assistant,
                    content: None,
                    tool_call_id: value.tool_call_id,
                    tool_calls: Some(calls),
                }
            },
            MessageType::ToolCallResponse => OpenAICompletionMessage {
                role: OpenAICompletionMessageRole::Tool,
                content: Some(value.contents.into_string()),
                tool_call_id: value.tool_call_id,
                tool_calls: None,
            },
        }
    }
}

/// Sending a conversation message to the API and reading it back gives the
/// same message, but for the tool call id, which is not read back.
pub proof fn lemma_message_round_trip(m: MessageView)
    requires
        message_is_sendable(m),
        m.message_type != MessageType::ToolCallRequest ==> m.contents is String,
    ensures
        completion_message_view(message_to_completion_view(m)) == (MessageView {
            tool_call_id: None,
            ..m
        }),
{
    if m.message_type == MessageType::ToolCallRequest {
        let rs = m.contents->ToolCallRequests_0;
        let back = rs.map_values(|r: ToolCallRequestView| request_to_call(r)).map_values(
            |c: OpenAICompletionToolCallView| call_to_request(c),
        );
        assert forall|i: int| 0 <= i < rs.len() implies back[i] == rs[i] by {
            lemma_tool_name_round_trip(rs[i].tool);
        }
        assert(back =~= rs);
    }
}

/// Every message read from the API can be sent back to it: a tool call
/// request read from the API always carries requests.
pub proof fn lemma_read_messages_are_sendable(m: OpenAICompletionMessageView)
    requires
        m.role != OpenAICompletionMessageRole::Function,
    ensures
        message_is_sendable(completion_message_view(m)),
{
}

} // verus!
