//! The OpenAI chat completion provider: the request it sends for a
//! conversation, and the message it makes of the reply.

use crate::api::llm::openai::completion::common::{
    completion_message_view, message_is_sendable, message_to_completion_view,
    OpenAICompletionMessage, OpenAICompletionMessageRole, OpenAICompletionMessageView,
};
use crate::api::llm::openai::completion::request::{
    OpenAICompletionRequest, OpenAISimpleToolChoice, OpenAITool, OpenAIToolChoice,
};
use crate::api::llm::openai::completion::response::OpenAICompletionResponse;
use crate::conversation_message::message::{
    IntoMessage, Message, MessageContentsView, MessageType, MessageView,
};
use crate::conversation_message::tool_call::{tool_kind_of_name, tool_kind_openai_tool, ToolKind};
use crate::llm::error::{Error, ErrorView};
use crate::text::{decode_utf8_lossy, utf8_lossy};
use vstd::prelude::*;
use vstd::string::StringExecFns;

verus! {

/// A chat completion endpoint: the model to ask, the API base and the key.
pub struct OpenAIProvider {
    pub model: String,
    pub api_base: String,
    pub api_key: String,
}

/// The assistant message a reply's choice stands for: its content and tool
/// calls, under the assistant role.
pub open spec fn reply_message_view(m: OpenAICompletionMessageView) -> MessageView {
    completion_message_view(
        OpenAICompletionMessageView {
            role: OpenAICompletionMessageRole::Assistant,
            content: m.content,
            tool_call_id: None,
            tool_calls: m.tool_calls,
        },
    )
}

/// Whether `reply` is what the choice's message `m` says: where it has tool
/// calls, a tool call request with one request per call, in order, each
/// with its call's id, the tool its function names and its arguments;
/// otherwise the model's text, the empty text where there is none.
pub open spec fn reply_carries_choice(m: OpenAICompletionMessageView, reply: MessageView) -> bool {
    match m.tool_calls {
        Some(calls) => {
            &&& reply.message_type == MessageType::ToolCallRequest
            &&& reply.contents is ToolCallRequests
            &&& reply.contents->ToolCallRequests_0.len() == calls.len()
            &&& forall|i: int|
                0 <= i < calls.len() ==> {
                    let q = #[trigger] reply.contents->ToolCallRequests_0[i];
                    &&& q.id == calls[i].id
                    &&& q.tool == tool_kind_of_name(calls[i].name)
                    &&& q.parameters == calls[i].arguments
                }
        },
        None => {
            &&& reply.message_type == MessageType::LLM
            &&& reply.contents == MessageContentsView::String(
                match m.content {
                    Some(t) => t,
                    None => Seq::empty(),
                },
            )
        },
    }
}

/// The reply read from a choice keeps every tool call of the choice, one
/// request per call and in order, and otherwise the model's text.
pub proof fn lemma_reply_keeps_calls(m: OpenAICompletionMessageView)
    ensures
        reply_carries_choice(m, reply_message_view(m)),
        reply_message_view(m).tool_call_id is None,
{
}

impl OpenAIProvider {
    /// A provider for `model` at `api_base`, with an empty API key.
    pub fn new(model: String, api_base: String) -> (r: OpenAIProvider)
        ensures
            r.model == model,
            r.api_base == api_base,
            r.api_key@ == Seq::<char>::empty(),
    {
        OpenAIProvider { model, api_base, api_key: String::new() }
    }

    /// The request for a conversation: every message of the history in its
    /// API form, one choice, every tool offered, the model free to choose
    /// among them.
    pub fn build_request(&self, message_history: &Vec<Message>, tools: &Vec<ToolKind>) -> (r:
        OpenAICompletionRequest)
        requires
            forall|i: int| 0 <= i < message_history@.len() ==> message_is_sendable(
                #[trigger] message_history@[i]@,
            ),
            forall|i: int| 0 <= i < tools@.len() ==> #[trigger] tools@[i] != ToolKind::Unknown,
        ensures
            r.model@ == self.model@,
            r.messages@.len() == message_history@.len(),
            forall|i: int|
                0 <= i < message_history@.len() ==> #[trigger] r.messages@[i]@
                    == message_to_completion_view(message_history@[i]@),
            r.n == Some(1u32),
            r.max_completion_tokens is None,
            r.max_tokens is None,
            r.tools is Some,
            r.tools->0@.len() == tools@.len(),
            forall|i: int|
                0 <= i < tools@.len() ==> #[trigger] r.tools->0@[i]@ == tool_kind_openai_tool(
                    tools@[i],
                ),
            r.tool_choice matches Some(OpenAIToolChoice::Simple(c)) && c
                == OpenAISimpleToolChoice::Auto,
            r.parallel_tool_calls is None,
    {
        let mut messages: Vec<OpenAICompletionMessage> = Vec::new();
        let n = message_history.len();
        let mut i: usize = 0;
        while i < n
            invariant
                n == message_history@.len(),
                0 <= i <= n,
                messages@.len() == i,
                forall|i: int| 0 <= i < message_history@.len() ==> message_is_sendable(
                    #[trigger] message_history@[i]@,
                ),
                forall|j: int|
                    0 <= j < i ==> #[trigger] messages@[j]@ == message_to_completion_view(
                        message_history@[j]@,
                    ),
            decreases n - i,
        {
            let m = message_history[i].duplicate();
            messages.push(OpenAICompletionMessage::from(m));
            i = i + 1;
        }
        let mut offered: Vec<OpenAITool> = Vec::new();
        let k = tools.len();
        let mut j: usize = 0;
        while j < k
            invariant
                k == tools@.len(),
                0 <= j <= k,
                offered@.len() == j,
                forall|i: int| 0 <= i < tools@.len() ==> #[trigger] tools@[i] != ToolKind::Unknown,
                forall|i: int|
                    0 <= i < j ==> #[trigger] offered@[i]@ == tool_kind_openai_tool(tools@[i]),
            decreases k - j,
        {
            offered.push(tools[j].into_openai_tool());
            j = j + 1;
        }
        OpenAICompletionRequest {
            model: self.model.clone(),
            messages,
            n: Some(1),
            max_completion_tokens: None,
            max_tokens: None,
            tools: Some(offered),
            tool_choice: Some(OpenAIToolChoice::Simple(OpenAISimpleToolChoice::Auto)),
            parallel_tool_calls: None,
        }
    }

    /// The message made of the endpoint's reply.  `parsed` is the reply
    /// decoded as a completion, or `None` where it is not one; then the
    /// error carries the reply's text.  A completion must have exactly one
    /// choice; its message is read under the assistant role.
    pub fn handle_response(body: &[u8], parsed: Option<OpenAICompletionResponse>) -> (r: Result<
        Message,
        Error,
    >)
        ensures
            parsed is None ==> r is Err && r->Err_0@ == ErrorView::LLMError(utf8_lossy(body@)),
            parsed is Some && parsed->0.choices@.len() != 1 ==> r is Err && r->Err_0@
                == ErrorView::InvalidChoiceCount,
            parsed is Some && parsed->0.choices@.len() == 1 ==> r is Ok && r->Ok_0@
                == reply_message_view(parsed->0.choices@[0].message@),
            parsed is Some && parsed->0.choices@.len() == 1 ==> r is Ok && reply_carries_choice(
                parsed->0.choices@[0].message@,
                r->Ok_0@,
            ),
    {
        match parsed {
            Some(response) => {
                if response.choices.len() != 1 {
                    return Err(Error::InvalidChoiceCount);
                }
                let mut choices = response.choices;
                let ghost first = choices@[0];
                match choices.pop() {
                    Some(choice) => {
                        assert(choice == first);
                        let message = OpenAICompletionMessage {
                            role: OpenAICompletionMessageRole::Assistant,
                            content: choice.message.content,
                            tool_call_id: None,
                            tool_calls: choice.message.tool_calls,
                        };
                        Ok(message.into_message())
                    },
                    None => Err(Error::InvalidChoiceCount),
                }
            },
            None => Err(Error::LLMError(decode_utf8_lossy(body))),
        }
    }
}

} // verus!
