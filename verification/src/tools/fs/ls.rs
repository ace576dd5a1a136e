//! `fs_ls`: the entries of a directory.

use crate::conversation_message::message::{
    opt_string_view, text_message, text_message_view, Message, MessageType, MessageView,
};
use crate::text::{
    bool_to_json, decimal, decimal_string, json_array, json_array_of, json_bool, json_opt_string,
    json_quote, json_string_literal, opt_string_to_json,
};
use crate::tools::common::{
    new_property, property_view, tool_answer, tool_answer_view, tool_error_answer,
    tool_error_answer_view, Tool, ToolCallResponseStatus, ToolParameterSchema,
    ToolParameterSchemaView, ToolParameters, ToolProperty,
};
use crate::tools::descriptions::LS_DESCRIPTION;
use crate::tools::error::{Error, ErrorView};
use crate::tools::fs::common::{is_absolute_path, FsUtils};
use vstd::prelude::*;
use vstd::string::StringExecFns;

verus! {

/// The tool that lists a directory.
pub struct Ls;

impl Ls {
    pub fn new() -> Self {
        Ls
    }
}

impl Tool for Ls {
    open spec fn spec_name() -> Seq<char> {
        "fs_ls"@
    }

    open spec fn spec_descriptions() -> Seq<char> {
        LS_DESCRIPTION@
    }

    open spec fn spec_parameter_schema() -> ToolParameterSchemaView {
        ToolParameterSchemaView {
            schema_type: "object"@,
            properties: seq![
                property_view("path"@, "string"@, "The directory path to list. Both relative and absolute paths are allowed."@, None),
                property_view("detailed"@, "boolean"@, "Whether to include metadata like file size and unix permissions."@, None)
            ],
            required: seq!["path"@, "detailed"@],
            additional_properties: false,
        }
    }

    open spec fn spec_strict() -> bool {
        true
    }

    fn get_name() -> (r: String) {
        String::from_str("fs_ls")
    }

    fn get_descriptions() -> (r: String) {
        String::from_str(LS_DESCRIPTION)
    }

    fn get_parameter_schema() -> (r: ToolParameterSchema) {
        let mut properties: Vec<ToolProperty> = Vec::new();
        properties.push(new_property("path", "string", "The directory path to list. Both relative and absolute paths are allowed."));
        properties.push(new_property("detailed", "boolean", "Whether to include metadata like file size and unix permissions."));
        let mut required: Vec<String> = Vec::new();
        required.push(String::from_str("path"));
        required.push(String::from_str("detailed"));
        let r = ToolParameterSchema {
            schema_type: String::from_str("object"),
            properties,
            required,
            additional_properties: false,
        };
        assert(r@.properties =~= Self::spec_parameter_schema().properties);
        assert(r@.required =~= Self::spec_parameter_schema().required);
        r
    }

    fn get_strict() -> (r: bool) {
        true
    }
}

/// The parameters of `fs_ls`: the directory, and whether to list metadata.
#[derive(Debug)]
pub struct LsParameters {
    pub path: String,
    pub detailed: bool,
}

impl ToolParameters for LsParameters {
    open spec fn spec_parse_failure() -> MessageView {
        text_message_view(MessageType::System, "invalid tool parameter format"@, None)
    }

    fn from_parsed(parsed: Option<Self>) -> (r: Result<Box<Self>, Message>) {
        match parsed {
            Some(p) => Ok(Box::new(p)),
            None => Err(text_message(MessageType::System, "invalid tool parameter format", None)),
        }
    }
}

/// What the file system said of one directory entry: its path and absolute
/// path (`None` where not UTF-8), whether it is a directory, its link
/// target if it is a symbolic link (`Some(None)` where the target is not
/// UTF-8), its Unix mode and its size in bytes.
#[derive(Debug)]
pub struct LsEntryFacts {
    pub path: Option<String>,
    pub absolute_path: Option<String>,
    pub is_dir: bool,
    pub symlink_target: Option<Option<String>>,
    pub permissions: u32,
    pub size: u64,
}

/// One entry of a listing, plain or with its metadata.
#[derive(Debug)]
pub enum LsFileEntry {
    Simple { path: String, entry_type: String, is_symlink: bool, symlink_dst: Option<String> },
    Detailed {
        path: String,
        absolute_path: String,
        entry_type: String,
        is_symlink: bool,
        symlink_dst: Option<String>,
        permissions: u32,
        size: u64,
    },
}

pub enum LsFileEntryView {
    Simple {
        path: Seq<char>,
        entry_type: Seq<char>,
        is_symlink: bool,
        symlink_dst: Option<Seq<char>>,
    },
    Detailed {
        path: Seq<char>,
        absolute_path: Seq<char>,
        entry_type: Seq<char>,
        is_symlink: bool,
        symlink_dst: Option<Seq<char>>,
        permissions: u32,
        size: u64,
    },
}

impl View for LsFileEntry {
    type V = LsFileEntryView;

    open spec fn view(&self) -> LsFileEntryView {
        match self {
            LsFileEntry::Simple { path, entry_type, is_symlink, symlink_dst } => LsFileEntryView::Simple {
                path: path@,
                entry_type: entry_type@,
                is_symlink: *is_symlink,
                symlink_dst: opt_string_view(*symlink_dst),
            },
            LsFileEntry::Detailed {
                path,
                absolute_path,
                entry_type,
                is_symlink,
                symlink_dst,
                permissions,
                size,
            } => LsFileEntryView::Detailed {
                path: path@,
                absolute_path: absolute_path@,
                entry_type: entry_type@,
                is_symlink: *is_symlink,
                symlink_dst: opt_string_view(*symlink_dst),
                permissions: *permissions,
                size: *size,
            },
        }
    }
}

/// The type name of an entry.
pub open spec fn entry_type_name(is_dir: bool) -> Seq<char> {
    if is_dir {
        "directory"@
    } else {
        "file"@
    }
}

/// The entry made of what the file system said, or the error on a name
/// that is not UTF-8: first the link target, then the path, then, for a
/// detailed listing, the absolute path.
pub open spec fn ls_entry_view(facts: LsEntryFacts, detailed: bool) -> Result<LsFileEntryView, ErrorView> {
    let dst = match facts.symlink_target {
        Some(Some(t)) => Some(t@),
        _ => None,
    };
    if facts.symlink_target matches Some(None) {
        Err(ErrorView::NonUTF8PathName)
    } else if facts.path is None {
        Err(ErrorView::NonUTF8PathName)
    } else if !detailed {
        Ok(LsFileEntryView::Simple {
            path: facts.path->0@,
            entry_type: entry_type_name(facts.is_dir),
            is_symlink: dst is Some,
            symlink_dst: dst,
        })
    } else if facts.absolute_path is None {
        Err(ErrorView::NonUTF8PathName)
    } else {
        Ok(LsFileEntryView::Detailed {
            path: facts.path->0@,
            absolute_path: facts.absolute_path->0@,
            entry_type: entry_type_name(facts.is_dir),
            is_symlink: dst is Some,
            symlink_dst: dst,
            permissions: facts.permissions,
            size: facts.size,
        })
    }
}

/// The JSON object of an entry.  Entries pass through a JSON value, whose
/// objects keep their keys sorted, so the keys come in alphabetical order.
pub open spec fn ls_entry_json(e: LsFileEntryView) -> Seq<char> {
    match e {
        LsFileEntryView::Simple { path, entry_type, is_symlink, symlink_dst } => "{\"is_symlink\":"@
            + json_bool(is_symlink) + ",\"path\":"@ + json_string_literal(path)
            + ",\"symlink_dst\":"@ + json_opt_string(symlink_dst) + ",\"type\":"@
            + json_string_literal(entry_type) + "}"@,
        LsFileEntryView::Detailed {
            path,
            absolute_path,
            entry_type,
            is_symlink,
            symlink_dst,
            permissions,
            size,
        } => "{\"absolute_path\":"@ + json_string_literal(absolute_path) + ",\"is_symlink\":"@
            + json_bool(is_symlink) + ",\"path\":"@ + json_string_literal(path)
            + ",\"permissions\":"@ + decimal(permissions as nat) + ",\"size\":"@ + decimal(
            size as nat,
        ) + ",\"symlink_dst\":"@ + json_opt_string(symlink_dst) + ",\"type\":"@
            + json_string_literal(entry_type) + "}"@,
    }
}

/// The JSON array of a listing.
pub open spec fn ls_listing_json(entries: Seq<LsFileEntryView>) -> Seq<char> {
    json_array(entries.map_values(|e: LsFileEntryView| ls_entry_json(e)))
}

/// The answer to an `fs_ls` call with id `id`, given the listing or the
/// error that stopped it.
pub open spec fn ls_answer_view(id: Seq<char>, outcome: Result<Seq<LsFileEntryView>, ErrorView>) -> MessageView {
    match outcome {
        Ok(entries) => tool_answer_view(
            id,
            <Ls as Tool>::spec_name(),
            ToolCallResponseStatus::Success,
            ls_listing_json(entries),
            Some(id),
        ),
        Err(e) => tool_error_answer_view(id, <Ls as Tool>::spec_name(), e, Some(id)),
    }
}

impl Ls {
    /// The absolute path a listing gives an entry whose path is `joined`:
    /// the path itself where it is absolute or the listing is plain; in a
    /// detailed listing of a relative directory, its canonical form where
    /// `canonicalize` finds one, and the path itself where it does not.
    pub fn entry_absolute_path<F: FnOnce(String) -> Result<String, Error>>(
        joined: String,
        detailed: bool,
        canonicalize: F,
    ) -> (r: String)
        requires
            forall|p: String| #![auto] call_requires(canonicalize, (p,)),
        ensures
            !detailed || is_absolute_path(joined@) ==> r == joined,
            detailed && !is_absolute_path(joined@) ==> exists|p: String, c: Result<String, Error>|
                p@ == joined@ && #[trigger] call_ensures(canonicalize, (p,), c) && r == match c {
                    Ok(q) => q,
                    Err(_) => joined,
                },
    {
        if !detailed || FsUtils::is_absolute(joined.as_str()) {
            joined
        } else {
            let p = joined.clone();
            match canonicalize(p) {
                Ok(q) => q,
                Err(_) => joined,
            }
        }
    }
}

impl Ls {
    /// The listing entry for what the file system said of a directory
    /// entry, or `NonUTF8PathName` where a name it needs is not UTF-8.
    pub fn entry(facts: LsEntryFacts, detailed: bool) -> (r: Result<LsFileEntry, Error>)
        ensures
            match ls_entry_view(facts, detailed) {
                Ok(v) => r is Ok && r->Ok_0@ == v,
                Err(e) => r is Err && r->Err_0@ == e,
            },
    {
        let ghost f = facts;
        let symlink_dst = match facts.symlink_target {
            Some(Some(t)) => Some(t),
            Some(None) => {
                return Err(Error::NonUTF8PathName);
            },
            None => None,
        };
        let entry_type = if facts.is_dir {
            String::from_str("directory")
        } else {
            String::from_str("file")
        };
        let is_symlink = symlink_dst.is_some();
        let path = match facts.path {
            Some(p) => p,
            None => {
                return Err(Error::NonUTF8PathName);
            },
        };
        if !detailed {
            return Ok(LsFileEntry::Simple { path, entry_type, is_symlink, symlink_dst });
        }
        match facts.absolute_path {
            Some(absolute_path) => Ok(
                LsFileEntry::Detailed {
                    path,
                    absolute_path,
                    entry_type,
                    is_symlink,
                    symlink_dst,
                    permissions: facts.permissions,
                    size: facts.size,
                },
            ),
            None => Err(Error::NonUTF8PathName),
        }
    }

    /// The JSON object of an entry.
    pub fn entry_json(entry: &LsFileEntry) -> (r: String)
        ensures
            r@ == ls_entry_json(entry@),
    {
        match entry {
            LsFileEntry::Simple { path, entry_type, is_symlink, symlink_dst } => {
                let mut s = String::from_str("{\"is_symlink\":");
                s.append(bool_to_json(*is_symlink));
                s.append(",\"path\":");
                s.append(json_quote(path.as_str()).as_str());
                s.append(",\"symlink_dst\":");
                s.append(opt_string_to_json(symlink_dst).as_str());
                s.append(",\"type\":");
                s.append(json_quote(entry_type.as_str()).as_str());
                s.append("}");
                s
            },
            LsFileEntry::Detailed {
                path,
                absolute_path,
                entry_type,
                is_symlink,
                symlink_dst,
                permissions,
                size,
            } => {
                let mut s = String::from_str("{\"absolute_path\":");
                s.append(json_quote(absolute_path.as_str()).as_str());
                s.append(",\"is_symlink\":");
                s.append(bool_to_json(*is_symlink));
                s.append(",\"path\":");
                s.append(json_quote(path.as_str()).as_str());
                s.append(",\"permissions\":");
                s.append(decimal_string(*permissions as u64).as_str());
                s.append(",\"size\":");
                s.append(decimal_string(*size).as_str());
                s.append(",\"symlink_dst\":");
                s.append(opt_string_to_json(symlink_dst).as_str());
                s.append(",\"type\":");
                s.append(json_quote(entry_type.as_str()).as_str());
                s.append("}");
                s
            },
        }
    }

    /// The JSON array of a listing.
    pub fn listing_json(entries: &Vec<LsFileEntry>) -> (r: String)
        ensures
            r@ == ls_listing_json(entries@.map_values(|e: LsFileEntry| e@)),
    {
        let ghost target = entries@.map_values(|e: LsFileEntry| e@).map_values(
            |e: LsFileEntryView| ls_entry_json(e),
        );
        let mut parts: Vec<String> = Vec::new();
        let n = entries.len();
        let mut i: usize = 0;
        while i < n
            invariant
                n == entries@.len(),
                0 <= i <= n,
                target == entries@.map_values(|e: LsFileEntry| e@).map_values(
                    |e: LsFileEntryView| ls_entry_json(e),
                ),
                parts@.len() == i,
                forall|j: int| 0 <= j < i ==> #[trigger] parts@[j]@ == target[j],
            decreases n - i,
        {
            parts.push(Self::entry_json(&entries[i]));
            i = i + 1;
        }
        assert(parts@.map_values(|s: String| s@) =~= target);
        json_array_of(&parts)
    }

    /// The answer to an `fs_ls` call, given the listing or the error that
    /// stopped it.
    pub fn finish(id: String, outcome: Result<Vec<LsFileEntry>, Error>) -> (r: Message)
        ensures
            r@ == ls_answer_view(
                id@,
                match outcome {
                    Ok(v) => Ok(v@.map_values(|e: LsFileEntry| e@)),
                    Err(e) => Err(e@),
                },
            ),
    {
        match outcome {
            Ok(entries) => tool_answer(
                id.clone(),
                Self::get_name(),
                ToolCallResponseStatus::Success,
                Self::listing_json(&entries),
                Some(id),
            ),
            Err(e) => tool_error_answer(id.clone(), Self::get_name(), &e, Some(id)),
        }
    }
}

} // verus!
