//! Tool calls of the earlier message form, over the file system tools.

use crate::tools::common::Tool;
use crate::tools::fs::ls::Ls;
use crate::tools::fs::pwd::Pwd;
use crate::tools::fs::read::Read;
use crate::tools::fs::write::Write;
use vstd::prelude::*;

verus! {

#[derive(Debug)]
pub struct ToolCallRequestMessage {
    pub id: String,
    pub tool: ToolKind,
    pub parameters: String,
}

/// The file system tools, and `Unknown` for any other name.
#[derive(Clone, Copy, Debug, PartialEq, Eq, Structural)]
pub enum ToolKind {
    Ls,
    Pwd,
    Read,
    Write,
    Unknown,
}

/// The file system tool that a name stands for; `Unknown` when none has it.
pub open spec fn fs_tool_of_name(name: Seq<char>) -> ToolKind {
    if name == <Ls as Tool>::spec_name() {
        ToolKind::Ls
    } else if name == <Pwd as Tool>::spec_name() {
        ToolKind::Pwd
    } else if name == <Read as Tool>::spec_name() {
        ToolKind::Read
    } else if name == <Write as Tool>::spec_name() {
        ToolKind::Write
    } else {
        ToolKind::Unknown
    }
}

impl ToolKind {
    /// The tool that `name` stands for, else `Unknown`.
    pub fn from_string(name: String) -> (r: ToolKind)
        ensures
            r == fs_tool_of_name(name@),
    {
        let ls = Ls::get_name();
        let pwd = Pwd::get_name();
        let read = Read::get_name();
        let write = Write::get_name();
        if name == ls {
            ToolKind::Ls
        } else if name == pwd {
            ToolKind::Pwd
        } else if name == read {
            ToolKind::Read
        } else if name == write {
            ToolKind::Write
        } else {
            ToolKind::Unknown
        }
    }
}

} // verus!
