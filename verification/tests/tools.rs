use llm_agent::conversation_message::message::{Message, MessageContents, MessageType};
use llm_agent::conversation_message::tool_call::ToolKind;
use llm_agent::tools::common::{Tool, ToolCallResponse, ToolCallResponseStatus, ToolParameters};
use llm_agent::tools::env::current_time::{CurrentTime, CurrentTimeParameters};
use llm_agent::tools::error::Error;
use llm_agent::tools::fs::common::{FsConfig, FsUtils};
use llm_agent::tools::fs::ls::{Ls, LsEntryFacts, LsFileEntry, LsParameters};
use llm_agent::tools::fs::pwd::{Pwd, PwdParameters};
use llm_agent::tools::fs::read::{Read, ReadParameters};
use llm_agent::tools::fs::write::{Write, WriteMode, WriteParameters};
use llm_agent::tools::llm_traits::IntoOpenAITool;

fn text_of(m: &Message) -> &str {
    match &m.contents {
        MessageContents::String(s) => s.as_str(),
        MessageContents::ToolCallRequests(_) => panic!("expected text"),
    }
}

#[test]
fn response_json_layout() {
    let r = ToolCallResponse {
        id: "a\"b".to_string(),
        name: "fs_ls".to_string(),
        status: ToolCallResponseStatus::Error,
        content: "[1,2]".to_string(),
    };
    assert_eq!(r.to_json(), "{\"id\":\"a\\\"b\",\"name\":\"fs_ls\",\"status\":\"error\",\"content\":[1,2]}");
}

#[test]
fn empty_directory_lists_as_empty_array() {
    let m = Ls::finish("c1".to_string(), Ok(vec![]));
    assert_eq!(m.message_type, MessageType::ToolCallResponse);
    assert_eq!(m.tool_call_id.as_deref(), Some("c1"));
    assert_eq!(text_of(&m), "{\"id\":\"c1\",\"name\":\"fs_ls\",\"status\":\"success\",\"content\":[]}");
}

#[test]
fn ls_entries_json() {
    let simple = Ls::entry(
        LsEntryFacts {
            path: Some("./a".to_string()),
            absolute_path: Some("/w/a".to_string()),
            is_dir: true,
            symlink_target: None,
            permissions: 16877,
            size: 4096,
        },
        false,
    )
    .unwrap();
    let detailed = Ls::entry(
        LsEntryFacts {
            path: Some("./l".to_string()),
            absolute_path: Some("/w/l".to_string()),
            is_dir: false,
            symlink_target: Some(Some("/etc/x".to_string())),
            permissions: 41471,
            size: 6,
        },
        true,
    )
    .unwrap();
    assert_eq!(
        Ls::entry_json(&simple),
        "{\"is_symlink\":false,\"path\":\"./a\",\"symlink_dst\":null,\"type\":\"directory\"}"
    );
    assert_eq!(
        Ls::entry_json(&detailed),
        "{\"absolute_path\":\"/w/l\",\"is_symlink\":true,\"path\":\"./l\",\"permissions\":41471,\"size\":6,\"symlink_dst\":\"/etc/x\",\"type\":\"file\"}"
    );
    let m = Ls::finish("id".to_string(), Ok(vec![simple, detailed]));
    assert!(text_of(&m).contains("\"content\":[{\"is_symlink\":false"));
    assert!(text_of(&m).ends_with("\"type\":\"file\"}]}"));
}

#[test]
fn ls_non_utf8_names_fail() {
    let r = Ls::entry(
        LsEntryFacts {
            path: None,
            absolute_path: Some("/w/a".to_string()),
            is_dir: false,
            symlink_target: None,
            permissions: 0,
            size: 0,
        },
        false,
    );
    assert!(matches!(r, Err(Error::NonUTF8PathName)));
    let r = Ls::entry(
        LsEntryFacts {
            path: Some("a".to_string()),
            absolute_path: None,
            is_dir: false,
            symlink_target: None,
            permissions: 0,
            size: 0,
        },
        true,
    );
    assert!(matches!(r, Err(Error::NonUTF8PathName)));
    let r = Ls::entry(
        LsEntryFacts {
            path: Some("a".to_string()),
            absolute_path: None,
            is_dir: false,
            symlink_target: None,
            permissions: 0,
            size: 0,
        },
        false,
    );
    assert!(r.is_ok());
    let r = Ls::entry(
        LsEntryFacts {
            path: Some("a".to_string()),
            absolute_path: Some("/a".to_string()),
            is_dir: false,
            symlink_target: Some(None),
            permissions: 0,
            size: 0,
        },
        false,
    );
    assert!(matches!(r, Err(Error::NonUTF8PathName)));
}

#[test]
fn tool_error_texts() {
    assert_eq!(Error::InvalidParameter("x".to_string()).to_string(), "InvalidParameter x");
    assert_eq!(Error::IoError("No such file".to_string()).to_string(), "IoError: No such file");
    assert_eq!(Error::JsonError("bad".to_string()).to_string(), "JsonError: bad");
    assert_eq!(Error::NonUTF8PathName.to_string(), "NonUTF8PathName");
    assert_eq!(Error::WhitelistViolation.to_string(), "Action denied (whitelist)");
}

#[test]
fn whitelist_violation_answer() {
    let m = Ls::finish("q".to_string(), Err(Error::WhitelistViolation));
    assert_eq!(
        text_of(&m),
        "{\"id\":\"q\",\"name\":\"fs_ls\",\"status\":\"error\",\"content\":\"Action denied (whitelist)\"}"
    );
}

#[test]
fn write_reports_bytes_written() {
    let m = Write::finish("w1".to_string(), "héllo", Ok(()));
    assert_eq!(
        text_of(&m),
        "{\"id\":\"w1\",\"name\":\"fs_write\",\"status\":\"success\",\"content\":{\"bytes_written\":6}}"
    );
    assert_eq!(m.tool_call_id.as_deref(), Some("w1"));
    let m = Write::finish("w2".to_string(), "x", Err(Error::IoError("denied".to_string())));
    assert_eq!(
        text_of(&m),
        "{\"id\":\"w2\",\"name\":\"fs_write\",\"status\":\"error\",\"content\":\"IoError: denied\"}"
    );
}

#[test]
fn write_open_flags() {
    let p = WriteParameters {
        path: "f".to_string(),
        mode: WriteMode::Append,
        create: true,
        contents: String::new(),
    };
    let f = Write::open_flags(&p);
    assert!(f.create && f.append && !f.write && !f.truncate);
    let p = WriteParameters {
        path: "f".to_string(),
        mode: WriteMode::Write,
        create: false,
        contents: String::new(),
    };
    let f = Write::open_flags(&p);
    assert!(!f.create && !f.append && f.write && f.truncate);
}

#[test]
fn read_answers_carry_call_id() {
    let m = Read::finish("r".to_string(), Ok("line1\nline2".to_string()));
    assert_eq!(
        text_of(&m),
        "{\"id\":\"r\",\"name\":\"fs_read\",\"status\":\"success\",\"content\":\"line1\\nline2\"}"
    );
    assert_eq!(m.tool_call_id, Some("r".to_string()));
    let m = Read::finish("r2".to_string(), Err(Error::IoError("gone".to_string())));
    assert_eq!(
        text_of(&m),
        "{\"id\":\"r2\",\"name\":\"fs_read\",\"status\":\"error\",\"content\":\"IoError: gone\"}"
    );
    assert_eq!(m.tool_call_id, Some("r2".to_string()));
}

#[test]
fn pwd_answers() {
    let m = Pwd::finish("p".to_string(), Ok(Some("/home/u".to_string())));
    assert_eq!(
        text_of(&m),
        "{\"id\":\"p\",\"name\":\"fs_pwd\",\"status\":\"success\",\"content\":\"/home/u\"}"
    );
    let m = Pwd::finish("p".to_string(), Ok(None));
    assert_eq!(
        text_of(&m),
        "{\"id\":\"p\",\"name\":\"fs_pwd\",\"status\":\"error\",\"content\":\"JsonError: path contains invalid UTF-8 characters\"}"
    );
}

#[test]
fn current_time_answers() {
    let m = CurrentTime::response("t".to_string(), "2026-01-01T09:00:00+09:00", "2026-01-01T00:00:00+00:00");
    assert_eq!(
        text_of(&m),
        "{\"id\":\"t\",\"name\":\"env_current_time\",\"status\":\"success\",\"content\":{\"local_time\":\"2026-01-01T09:00:00+09:00\",\"utc_time\":\"2026-01-01T00:00:00+00:00\"}}"
    );
    let m = CurrentTime::run("t2".to_string(), Some(CurrentTimeParameters {}), |_secs: i64| Some(32400));
    let text = text_of(&m);
    assert!(text.starts_with("{\"id\":\"t2\",\"name\":\"env_current_time\",\"status\":\"success\",\"content\":{\"local_time\":\""));
    assert!(text.contains("+09:00\",\"utc_time\":\""));
    assert!(text.ends_with("+00:00\"}}"));
    let m = CurrentTime::run("t3".to_string(), None, |_secs: i64| Some(0));
    assert_eq!(m.message_type, MessageType::System);
    assert_eq!(text_of(&m), "invalid parameter format");
}

#[test]
fn current_time_at_readings() {
    let m = CurrentTime::reading_answer("t".to_string(), 0, 0, Some(0));
    assert_eq!(
        text_of(&m),
        "{\"id\":\"t\",\"name\":\"env_current_time\",\"status\":\"success\",\"content\":{\"local_time\":\"1970-01-01T00:00:00+00:00\",\"utc_time\":\"1970-01-01T00:00:00+00:00\"}}"
    );
    let m = CurrentTime::reading_answer("t".to_string(), 1_767_225_600, 500_000_000, Some(32400));
    assert_eq!(
        text_of(&m),
        "{\"id\":\"t\",\"name\":\"env_current_time\",\"status\":\"success\",\"content\":{\"local_time\":\"2026-01-01T09:00:00.500+09:00\",\"utc_time\":\"2026-01-01T00:00:00.500+00:00\"}}"
    );
    let m = CurrentTime::reading_answer("t".to_string(), 1_767_225_600, 0, Some(-16200));
    assert!(text_of(&m).contains("\"local_time\":\"2025-12-31T19:30:00-04:30\""));
}

#[test]
fn clock_readings_as_instants() {
    assert_eq!(CurrentTime::epoch_instant(true, 5, 250), Some((5, 250)));
    assert_eq!(CurrentTime::epoch_instant(false, 5, 0), Some((-5, 0)));
    assert_eq!(CurrentTime::epoch_instant(false, 5, 250_000_000), Some((-6, 750_000_000)));
    assert_eq!(CurrentTime::epoch_instant(true, u64::MAX, 0), None);
    assert_eq!(CurrentTime::epoch_instant(false, 1 << 63, 0), Some((i64::MIN, 0)));
    assert_eq!(CurrentTime::epoch_instant(false, 1 << 63, 1), None);
    let m = CurrentTime::reading_answer("t".to_string(), -6, 750_000_000, Some(0));
    assert!(text_of(&m).contains("\"utc_time\":\"1969-12-31T23:59:54.750+00:00\""));
}

#[test]
fn current_time_failures() {
    let failure = "{\"id\":\"t\",\"name\":\"env_current_time\",\"status\":\"error\",\"content\":\"IoError: the system clock could not be read\"}";
    let m = CurrentTime::reading_answer("t".to_string(), 0, 0, None);
    assert_eq!(text_of(&m), failure);
    let m = CurrentTime::reading_answer("t".to_string(), 0, 0, Some(86_400));
    assert_eq!(text_of(&m), failure);
    let m = CurrentTime::reading_answer("t".to_string(), i64::MAX, 0, Some(0));
    assert_eq!(text_of(&m), failure);
    let m = CurrentTime::clock_failure("t".to_string());
    assert_eq!(text_of(&m), failure);
    let m = CurrentTime::run("t".to_string(), Some(CurrentTimeParameters {}), |_secs: i64| None);
    assert_eq!(text_of(&m), failure);
}

#[test]
fn json_escapes_in_answers() {
    let m = Pwd::finish("p".to_string(), Ok(Some("a\"b\\c\n\t\u{1}\u{7f}é".to_string())));
    assert_eq!(
        text_of(&m),
        "{\"id\":\"p\",\"name\":\"fs_pwd\",\"status\":\"success\",\"content\":\"a\\\"b\\\\c\\n\\t\\u0001\u{7f}é\"}"
    );
}

#[test]
fn write_denied_by_empty_whitelist() {
    let config = FsConfig::new();
    let r = FsUtils::check_access(&config.write_whitelist, "/tmp/a.txt", |p: String| -> Result<String, Error> { Ok(p) });
    let m = Write::finish("c1".to_string(), "hi", r.map(|_| ()));
    assert_eq!(
        text_of(&m),
        "{\"id\":\"c1\",\"name\":\"fs_write\",\"status\":\"error\",\"content\":\"Action denied (whitelist)\"}"
    );
    assert_eq!(m.tool_call_id, Some("c1".to_string()));
}

#[test]
fn parameter_failures() {
    let e = LsParameters::from_parsed(None).unwrap_err();
    assert_eq!(e.message_type, MessageType::System);
    assert_eq!(text_of(&e), "invalid tool parameter format");
    let e = ReadParameters::from_parsed(None).unwrap_err();
    assert_eq!(e.message_type, MessageType::ToolCallResponse);
    assert_eq!(text_of(&e), "invalid parameter format");
    let e = PwdParameters::from_parsed(None).unwrap_err();
    assert_eq!(e.message_type, MessageType::System);
    assert!(e.tool_call_id.is_none());
    let p = LsParameters::from_parsed(Some(LsParameters { path: "~".to_string(), detailed: true })).unwrap();
    assert_eq!(p.path, "~");
    assert!(p.detailed);
}

#[test]
fn unknown_tool_answer() {
    let m = ToolKind::unknown_tool_answer("z".to_string());
    assert_eq!(m.message_type, MessageType::ToolCallResponse);
    assert_eq!(text_of(&m), "tool name not found");
    assert_eq!(m.tool_call_id.as_deref(), Some("z"));
}

#[test]
fn tool_definitions() {
    let t = Write::new().into_openai_tool();
    assert_eq!(t.tool_type, "function");
    assert_eq!(t.function.name, "fs_write");
    assert_eq!(t.function.strict, Some(true));
    assert!(t.function.description.unwrap().starts_with("## Tool Name: `fs_write`"));
    let schema = t.function.parameters;
    assert_eq!(schema.schema_type, "object");
    assert_eq!(schema.required, vec!["path", "mode", "create", "contents"]);
    assert!(!schema.additional_properties);
    assert_eq!(schema.properties.len(), 4);
    assert_eq!(schema.properties[1].name, "mode");
    assert_eq!(schema.properties[1].allowed_values, Some(vec!["append".to_string(), "write".to_string()]));
    let t = ToolKind::FsPwd.into_openai_tool();
    assert_eq!(t.function.name, "fs_pwd");
    assert!(t.function.parameters.properties.is_empty());
    assert!(t.function.parameters.required.is_empty());
    assert_eq!(Ls::get_parameter_schema().required, vec!["path", "detailed"]);
    assert!(Read::get_strict());
}

#[test]
fn absolute_paths() {
    assert!(FsUtils::is_absolute("/etc"));
    assert!(!FsUtils::is_absolute("etc"));
    assert!(!FsUtils::is_absolute(""));
    let r = FsUtils::get_absolute_path("/x/y".to_string(), |_p: String| -> Result<String, Error> {
        panic!("absolute paths are not canonicalised")
    });
    assert_eq!(r.unwrap(), "/x/y");
    let r = FsUtils::get_absolute_path("y".to_string(), |p: String| -> Result<String, Error> {
        Ok(format!("/base/{}", p))
    });
    assert_eq!(r.unwrap(), "/base/y");
}

#[test]
fn tilde_expansion() {
    assert_eq!(FsUtils::expand_tilde("/abs/~x"), "/abs/~x");
    assert_eq!(FsUtils::expand_tilde("~user/x"), "~user/x");
    let e = FsUtils::expand_tilde("~/docs");
    assert!(e.ends_with("/docs"));
    assert_ne!(e, "~/docs");
}

#[test]
fn default_whitelists_deny_everything() {
    let config = FsConfig::new();
    let r = FsUtils::check_access(&config.read_whitelist, "/tmp", |p: String| -> Result<String, Error> { Ok(p) });
    assert!(matches!(r, Err(Error::WhitelistViolation)));
    let r = FsUtils::check_access(&config.write_whitelist, "rel", |_p: String| -> Result<String, Error> {
        Err(Error::IoError("No such file or directory (os error 2)".to_string()))
    });
    assert!(matches!(r, Err(Error::IoError(_))));
}

#[test]
fn whitelist_that_matches() {
    let mut b = globset::GlobSetBuilder::new();
    b.add(globset::Glob::new("/tmp/**").unwrap());
    let set = b.build().unwrap();
    let r = FsUtils::check_access(&set, "/tmp/a", |p: String| -> Result<String, Error> { Ok(p) });
    assert_eq!(r.unwrap(), "/tmp/a");
}

#[test]
fn relative_paths_resolve() {
    let gone = || Err(Error::IoError("No such file or directory (os error 2)".to_string()));
    let r = FsUtils::resolve_absolute(Ok("/w/a.txt".to_string()), None, Some("a.txt".to_string()));
    assert_eq!(r.unwrap(), "/w/a.txt");
    let r = FsUtils::resolve_absolute(gone(), Some(Ok("/w/sub".to_string())), Some("new.txt".to_string()));
    assert_eq!(r.unwrap(), "/w/sub/new.txt");
    let r = FsUtils::resolve_absolute(gone(), Some(Ok("/".to_string())), Some("new.txt".to_string()));
    assert_eq!(r.unwrap(), "/new.txt");
    let r = FsUtils::resolve_absolute(gone(), Some(Err(Error::IoError("no dir".to_string()))), Some("n".to_string()));
    assert!(matches!(r, Err(Error::IoError(ref m)) if m == "no dir"));
    let r = FsUtils::resolve_absolute(Err(Error::IoError("denied".to_string())), None, Some("n".to_string()));
    assert!(matches!(r, Err(Error::IoError(ref m)) if m == "denied"));
    let r = FsUtils::resolve_absolute(gone(), None, None);
    assert!(matches!(r, Err(Error::IoError(_))));
}

#[test]
fn entry_absolute_paths() {
    let canonical = |p: String| -> Result<String, Error> { Ok(format!("/real/{}", p)) };
    assert_eq!(Ls::entry_absolute_path("d/x".to_string(), true, canonical), "/real/d/x");
    assert_eq!(Ls::entry_absolute_path("d/x".to_string(), false, canonical), "d/x");
    assert_eq!(Ls::entry_absolute_path("/d/x".to_string(), true, canonical), "/d/x");
    let broken = |_p: String| -> Result<String, Error> { Err(Error::IoError("broken link".to_string())) };
    assert_eq!(Ls::entry_absolute_path("d/x".to_string(), true, broken), "d/x");
}

#[test]
fn access_outcomes() {
    let r = FsUtils::access_outcome("~/a".to_string(), Ok("/h/a".to_string()), true);
    assert_eq!(r.unwrap(), "~/a");
    let r = FsUtils::access_outcome("~/a".to_string(), Ok("/h/a".to_string()), false);
    assert!(matches!(r, Err(Error::WhitelistViolation)));
    let r = FsUtils::access_outcome("a".to_string(), Err(Error::IoError("gone".to_string())), true);
    assert!(matches!(r, Err(Error::IoError(ref m)) if m == "gone"));
}
