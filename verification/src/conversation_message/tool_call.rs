//! Tool calls as the conversation carries them, and the catalogue of tools.

use crate::api::llm::openai::completion::request::{OpenAITool, OpenAIToolView};
use crate::conversation_message::message::{text_message, text_message_view, Message, MessageType, MessageView};
use crate::text::{json_quote, json_string_literal};
use crate::tools::llm_traits::{openai_tool_of, IntoOpenAITool};
use crate::tools::common::Tool;
use crate::tools::env::current_time::CurrentTime;
use crate::tools::fs::ls::Ls;
use crate::tools::fs::pwd::Pwd;
use crate::tools::fs::read::Read;
use crate::tools::fs::write::Write;
use vstd::prelude::*;
use vstd::string::StringExecFns;

verus! {

/// The tools the agent knows, and `Unknown` for a name that matches none.
#[derive(Clone, Copy, Debug, PartialEq, Eq, Structural)]
pub enum ToolKind {
    FsLs,
    FsPwd,
    FsRead,
    FsWrite,
    EnvCurrentTime,
    Unknown,
}

/// A tool call the model asks for: the call's id, the tool and the JSON
/// arguments as the model wrote them.
#[derive(Clone, Debug)]
pub struct ToolCallRequestMessage {
    pub id: String,
    pub tool: ToolKind,
    pub parameters: String,
}

pub struct ToolCallRequestView {
    pub id: Seq<char>,
    pub tool: ToolKind,
    pub parameters: Seq<char>,
}

impl View for ToolCallRequestMessage {
    type V = ToolCallRequestView;

    open spec fn view(&self) -> ToolCallRequestView {
        ToolCallRequestView { id: self.id@, tool: self.tool, parameters: self.parameters@ }
    }
}

/// The name under which a tool is offered to the model.
pub open spec fn tool_kind_name(k: ToolKind) -> Seq<char> {
    match k {
        ToolKind::FsLs => <Ls as Tool>::spec_name(),
        ToolKind::FsPwd => <Pwd as Tool>::spec_name(),
        ToolKind::FsRead => <Read as Tool>::spec_name(),
        ToolKind::FsWrite => <Write as Tool>::spec_name(),
        ToolKind::EnvCurrentTime => <CurrentTime as Tool>::spec_name(),
        ToolKind::Unknown => "unknown"@,
    }
}

/// The tool that a name stands for; `Unknown` when no tool has that name.
pub open spec fn tool_kind_of_name(name: Seq<char>) -> ToolKind {
    if name == <Ls as Tool>::spec_name() {
        ToolKind::FsLs
    } else if name == <Pwd as Tool>::spec_name() {
        ToolKind::FsPwd
    } else if name == <Read as Tool>::spec_name() {
        ToolKind::FsRead
    } else if name == <Write as Tool>::spec_name() {
        ToolKind::FsWrite
    } else if name == <CurrentTime as Tool>::spec_name() {
        ToolKind::EnvCurrentTime
    } else {
        ToolKind::Unknown
    }
}

/// The JSON of a tool kind: its variant name in snake case, quoted.
pub open spec fn tool_kind_json(k: ToolKind) -> Seq<char> {
    match k {
        ToolKind::FsLs => "\"fs_ls\""@,
        ToolKind::FsPwd => "\"fs_pwd\""@,
        ToolKind::FsRead => "\"fs_read\""@,
        ToolKind::FsWrite => "\"fs_write\""@,
        ToolKind::EnvCurrentTime => "\"env_current_time\""@,
        ToolKind::Unknown => "\"unknown\""@,
    }
}

/// The compact JSON object of a request, fields in declaration order.
pub open spec fn request_json(r: ToolCallRequestView) -> Seq<char> {
    "{\"id\":"@ + json_string_literal(r.id) + ",\"tool\":"@ + tool_kind_json(r.tool)
        + ",\"parameters\":"@ + json_string_literal(r.parameters) + "}"@
}

/// The requests' JSON objects separated by commas.
pub open spec fn requests_join(rs: Seq<ToolCallRequestView>) -> Seq<char>
    decreases rs.len(),
{
    if rs.len() == 0 {
        Seq::empty()
    } else if rs.len() == 1 {
        request_json(rs[0])
    } else {
        requests_join(rs.drop_last()) + ","@ + request_json(rs.last())
    }
}

/// The compact JSON array of the requests.
pub open spec fn requests_json(rs: Seq<ToolCallRequestView>) -> Seq<char> {
    "["@ + requests_join(rs) + "]"@
}

fn tool_kind_to_json(k: ToolKind) -> (r: &'static str)
    ensures
        r@ == tool_kind_json(k),
{
    match k {
        ToolKind::FsLs => "\"fs_ls\"",
        ToolKind::FsPwd => "\"fs_pwd\"",
        ToolKind::FsRead => "\"fs_read\"",
        ToolKind::FsWrite => "\"fs_write\"",
        ToolKind::EnvCurrentTime => "\"env_current_time\"",
        ToolKind::Unknown => "\"unknown\"",
    }
}

/// The JSON text of one request, as `serde_json::to_string` writes it.
pub fn request_to_json(r: &ToolCallRequestMessage) -> (s: String)
    ensures
        s@ == request_json(r@),
{
    let mut s = String::from_str("{\"id\":");
    s.append(json_quote(r.id.as_str()).as_str());
    s.append(",\"tool\":");
    s.append(tool_kind_to_json(r.tool));
    s.append(",\"parameters\":");
    s.append(json_quote(r.parameters.as_str()).as_str());
    s.append("}");
    s
}

/// The JSON text of a list of requests, as `serde_json::to_string` writes it.
pub fn requests_to_json(rs: &Vec<ToolCallRequestMessage>) -> (s: String)
    ensures
        s@ == requests_json(rs@.map_values(|r: ToolCallRequestMessage| r@)),
{
    let ghost views = rs@.map_values(|r: ToolCallRequestMessage| r@);
    let mut s = String::from_str("[");
    let n = rs.len();
    let mut i: usize = 0;
    while i < n
        invariant
            n == rs@.len(),
            views == rs@.map_values(|r: ToolCallRequestMessage| r@),
            0 <= i <= n,
            s@ == "["@ + requests_join(views.take(i as int)),
        decreases n - i,
    {
        proof {
            assert(views.take(i + 1).drop_last() =~= views.take(i as int));
            assert(views.take(i + 1).last() == views[i as int]);
            if i == 0 {
                assert(views.take(0) =~= Seq::<ToolCallRequestView>::empty());
            }
        }
        if i > 0 {
            s.append(",");
        }
        s.append(request_to_json(&rs[i]).as_str());
        i = i + 1;
    }
    proof {
        assert(views.take(n as int) =~= views);
    }
    s.append("]");
    s
}

impl ToolCallRequestMessage {
    /// A copy of the request.
    pub fn duplicate(&self) -> (r: ToolCallRequestMessage)
        ensures
            r@ == self@,
    {
        ToolCallRequestMessage {
            id: self.id.clone(),
            tool: self.tool,
            parameters: self.parameters.clone(),
        }
    }
}

/// A copy of a list of requests.
pub fn duplicate_requests(rs: &Vec<ToolCallRequestMessage>) -> (r: Vec<ToolCallRequestMessage>)
    ensures
        r@.map_values(|q: ToolCallRequestMessage| q@) == rs@.map_values(
            |q: ToolCallRequestMessage| q@,
        ),
{
    let mut r: Vec<ToolCallRequestMessage> = Vec::new();
    let n = rs.len();
    let mut i: usize = 0;
    while i < n
        invariant
            n == rs@.len(),
            0 <= i <= n,
            r@.len() == i,
            forall|j: int| 0 <= j < i ==> #[trigger] r@[j]@ == rs@[j]@,
        decreases n - i,
    {
        r.push(rs[i].duplicate());
        i = i + 1;
    }
    assert(r@.map_values(|q: ToolCallRequestMessage| q@) =~= rs@.map_values(
        |q: ToolCallRequestMessage| q@,
    ));
    r
}

impl ToolKind {
    /// The tool that `name` stands for: the tool whose name it is, else
    /// `Unknown`.
    pub fn from_string(name: String) -> (r: ToolKind)
        ensures
            r == tool_kind_of_name(name@),
    {
        let ls = Ls::get_name();
        let pwd = Pwd::get_name();
        let read = Read::get_name();
        let write = Write::get_name();
        let current_time = CurrentTime::get_name();
        if name == ls {
            ToolKind::FsLs
        } else if name == pwd {
            ToolKind::FsPwd
        } else if name == read {
            ToolKind::FsRead
        } else if name == write {
            ToolKind::FsWrite
        } else if name == current_time {
            ToolKind::EnvCurrentTime
        } else {
            ToolKind::Unknown
        }
    }

    /// The name of the tool; "unknown" for `Unknown`.
    pub fn to_string(&self) -> (r: String)
        ensures
            r@ == tool_kind_name(*self),
    {
        match self {
            ToolKind::FsLs => Ls::get_name(),
            ToolKind::FsPwd => Pwd::get_name(),
            ToolKind::FsRead => Read::get_name(),
            ToolKind::FsWrite => Write::get_name(),
            ToolKind::EnvCurrentTime => CurrentTime::get_name(),
            ToolKind::Unknown => String::from_str("unknown"),
        }
    }
}

/// The OpenAI tool definition of a known tool.
pub open spec fn tool_kind_openai_tool(k: ToolKind) -> OpenAIToolView {
    match k {
        ToolKind::FsLs => openai_tool_of::<Ls>(),
        ToolKind::FsPwd => openai_tool_of::<Pwd>(),
        ToolKind::FsRead => openai_tool_of::<Read>(),
        ToolKind::FsWrite => openai_tool_of::<Write>(),
        ToolKind::EnvCurrentTime => openai_tool_of::<CurrentTime>(),
        ToolKind::Unknown => arbitrary(),
    }
}

impl ToolKind {
    /// The OpenAI tool definition of the tool.  `Unknown` is never offered
    /// to the model.
    pub fn into_openai_tool(self) -> (r: OpenAITool)
        requires
            self != ToolKind::Unknown,
        ensures
            r@ == tool_kind_openai_tool(self),
    {
        match self {
            ToolKind::FsLs => Ls::new().into_openai_tool(),
            ToolKind::FsPwd => Pwd::new().into_openai_tool(),
            ToolKind::FsRead => Read::new().into_openai_tool(),
            ToolKind::FsWrite => Write::new().into_openai_tool(),
            ToolKind::EnvCurrentTime => CurrentTime::new().into_openai_tool(),
            ToolKind::Unknown => {
                proof {
                    assert(false);
                }
                Ls::new().into_openai_tool()
            },
        }
    }
}

/// The answer to a call of a tool that does not exist.
pub open spec fn unknown_tool_answer_view(id: Seq<char>) -> MessageView {
    text_message_view(MessageType::ToolCallResponse, "tool name not found"@, Some(id))
}

impl ToolKind {
    /// The answer to a call of a tool that does not exist: a tool call
    /// response that says so.
    pub fn unknown_tool_answer(id: String) -> (r: Message)
        ensures
            r@ == unknown_tool_answer_view(id@),
    {
        text_message(MessageType::ToolCallResponse, "tool name not found", Some(id))
    }
}

/// Naming a tool and reading the name back gives the same tool, `Unknown`
/// included: no tool is named "unknown".
pub proof fn lemma_tool_name_round_trip(k: ToolKind)
    ensures
        tool_kind_of_name(tool_kind_name(k)) == k,
{
    reveal_strlit("fs_ls");
    reveal_strlit("fs_pwd");
    reveal_strlit("fs_read");
    reveal_strlit("fs_write");
    reveal_strlit("env_current_time");
    reveal_strlit("unknown");
    assert("fs_ls"@.len() == 5);
    assert("fs_pwd"@.len() == 6);
    assert("fs_read"@.len() == 7);
    assert("fs_write"@.len() == 8);
    assert("env_current_time"@.len() == 16);
    assert("unknown"@.len() == 7);
    assert("unknown"@[0] != "fs_read"@[0]);
}

/// A name that stands for a tool is that tool's name.
pub proof fn lemma_tool_name_of_known(name: Seq<char>)
    requires
        tool_kind_of_name(name) != ToolKind::Unknown,
    ensures
        tool_kind_name(tool_kind_of_name(name)) == name,
{
}

} // verus!
