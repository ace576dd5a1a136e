//! What the terminal interface does with a key press, and how it prints the
//! messages the session broadcasts.

use crate::conversation_message::message::{
    text_message_view, Message, MessageContents, MessageContentsView, MessageType, MessageView,
};
use crate::conversation_message::tool_call::{
    request_json, request_to_json, ToolCallRequestMessage, ToolCallRequestView,
};
use vstd::prelude::*;
use vstd::string::StringExecFns;

verus! {

/// The key presses the interface tells apart.
#[derive(Clone, Copy, Debug, PartialEq, Eq, Structural)]
pub enum KeyPress {
    Enter,
    CtrlC,
    Other,
}

/// How a printed line is styled.
#[derive(Clone, Copy, Debug, PartialEq, Eq, Structural)]
pub enum LineStyle {
    Plain,
    Cyan,
    DarkGray,
}

/// A line to print above the input box.
#[derive(Debug)]
pub struct DisplayLine {
    pub text: String,
    pub style: LineStyle,
}

pub struct DisplayLineView {
    pub text: Seq<char>,
    pub style: LineStyle,
}

impl View for DisplayLine {
    type V = DisplayLineView;

    open spec fn view(&self) -> DisplayLineView {
        DisplayLineView { text: self.text@, style: self.style }
    }
}

/// What a key press leads to: leave the interface; send the typed text as
/// a user message and echo it; nothing; or let the input box edit its text.
#[derive(Debug)]
pub enum KeyAction {
    Quit,
    Submit { message: Message, echo: DisplayLine },
    Ignore,
    Edit,
}


/// Decides what a key press does, given the input box's text.
pub fn key_action(key: KeyPress, input_value: &str) -> (r: KeyAction)
    ensures
        key == KeyPress::CtrlC ==> r is Quit,
        key == KeyPress::Enter && input_value@.len() == 0 ==> r is Ignore,
        key == KeyPress::Enter && input_value@.len() > 0 ==> (r matches KeyAction::Submit {
            message,
            echo,
        } && message@ == text_message_view(MessageType::User, input_value@, None) && echo@
            == (DisplayLineView { text: "> "@ + input_value@, style: LineStyle::Cyan })),
        key == KeyPress::Other ==> r is Edit,
{
    match key {
        KeyPress::CtrlC => KeyAction::Quit,
        KeyPress::Other => KeyAction::Edit,
        KeyPress::Enter => {
            if input_value.is_empty() {
                KeyAction::Ignore
            } else {
                let mut echo = String::from_str("> ");
                echo.append(input_value);
                KeyAction::Submit {
                    message: Message {
                        message_type: MessageType::User,
                        contents: MessageContents::String(input_value.to_owned()),
                        tool_call_id: None,
                    },
                    echo: DisplayLine { text: echo, style: LineStyle::Cyan },
                }
            }
        },
    }
}

/// The line printed for one tool call request.
pub open spec fn request_line(r: ToolCallRequestView) -> DisplayLineView {
    DisplayLineView { text: "ToolCall: "@ + request_json(r), style: LineStyle::DarkGray }
}

/// The lines printed for a broadcast message: the model's text as it is;
/// each tool call request as its JSON; a tool's response after
/// "ToolResponse: ".  Other messages print nothing.
pub open spec fn display_lines_view(m: MessageView) -> Seq<DisplayLineView> {
    match (m.message_type, m.contents) {
        (MessageType::LLM, MessageContentsView::String(s)) => seq![
            DisplayLineView { text: s, style: LineStyle::Plain },
        ],
        (MessageType::ToolCallRequest, MessageContentsView::ToolCallRequests(rs)) => rs.map_values(
            |r: ToolCallRequestView| request_line(r),
        ),
        (MessageType::ToolCallResponse, MessageContentsView::String(s)) => seq![
            DisplayLineView { text: "ToolResponse: "@ + s, style: LineStyle::DarkGray },
        ],
        _ => Seq::empty(),
    }
}

/// The lines to print for a broadcast message.
pub fn display_lines(message: &Message) -> (r: Vec<DisplayLine>)
    ensures
        r@.map_values(|l: DisplayLine| l@) == display_lines_view(message@),
{
    let mut lines: Vec<DisplayLine> = Vec::new();
    match (&message.message_type, &message.contents) {
        (MessageType::LLM, MessageContents::String(s)) => {
            lines.push(DisplayLine { text: s.clone(), style: LineStyle::Plain });
        },
        (MessageType::ToolCallRequest, MessageContents::ToolCallRequests(requests)) => {
            let ghost target = requests@.map_values(|r: ToolCallRequestMessage| r@).map_values(
                |r: ToolCallRequestView| request_line(r),
            );
            let n = requests.len();
            let mut i: usize = 0;
            while i < n
                invariant
                    n == requests@.len(),
                    0 <= i <= n,
                    target == requests@.map_values(|r: ToolCallRequestMessage| r@).map_values(
                        |r: ToolCallRequestView| request_line(r),
                    ),
                    lines@.len() == i,
                    forall|j: int| 0 <= j < i ==> #[trigger] lines@[j]@ == target[j],
                decreases n - i,
            {
                let mut text = String::from_str("ToolCall: ");
                text.append(request_to_json(&requests[i]).as_str());
                lines.push(DisplayLine { text, style: LineStyle::DarkGray });
                i = i + 1;
            }
        },
        (MessageType::ToolCallResponse, MessageContents::String(s)) => {
            let mut text = String::from_str("ToolResponse: ");
            text.append(s.as_str());
            lines.push(DisplayLine { text, style: LineStyle::DarkGray });
        },
        _ => {},
    }
    assert(lines@.map_values(|l: DisplayLine| l@) =~= display_lines_view(message@));
    lines
}

} // verus!
