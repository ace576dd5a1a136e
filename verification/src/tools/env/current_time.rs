//! `env_current_time`: the local and the UTC time.

use crate::conversation_message::message::{
    text_message, text_message_view, Message, MessageType, MessageView,
};
use crate::text::{json_quote, json_string_literal};
use crate::tools::common::{
    empty_object_schema, tool_answer, tool_answer_view, tool_error_answer, tool_error_answer_view,
    Tool, ToolCallResponseStatus, ToolParameterSchema, ToolParameterSchemaView, ToolParameters,
};
use crate::tools::error::{Error, ErrorView};
use crate::tools::descriptions::CURRENT_TIME_DESCRIPTION;
use vstd::prelude::*;
use vstd::string::StringExecFns;

verus! {

/// The tool that reports the current time.
pub struct CurrentTime;

impl CurrentTime {
    pub fn new() -> Self {
        CurrentTime
    }
}

impl Tool for CurrentTime {
    open spec fn spec_name() -> Seq<char> {
        "env_current_time"@
    }

    open spec fn spec_descriptions() -> Seq<char> {
        CURRENT_TIME_DESCRIPTION@
    }

    open spec fn spec_parameter_schema() -> ToolParameterSchemaView {
        ToolParameterSchemaView {
            schema_type: "object"@,
            properties: Seq::empty(),
            required: Seq::empty(),
            additional_properties: false,
        }
    }

    open spec fn spec_strict() -> bool {
        true
    }

    fn get_name() -> (r: String) {
        String::from_str("env_current_time")
    }

    fn get_descriptions() -> (r: String) {
        String::from_str(CURRENT_TIME_DESCRIPTION)
    }

    fn get_parameter_schema() -> (r: ToolParameterSchema) {
        empty_object_schema()
    }

    fn get_strict() -> (r: bool) {
        true
    }
}

/// `env_current_time` takes no parameters.
#[derive(Debug)]
pub struct CurrentTimeParameters {}

impl ToolParameters for CurrentTimeParameters {
    open spec fn spec_parse_failure() -> MessageView {
        text_message_view(MessageType::System, "invalid parameter format"@, None)
    }

    fn from_parsed(parsed: Option<Self>) -> (r: Result<Box<Self>, Message>) {
        match parsed {
            Some(p) => Ok(Box::new(p)),
            None => Err(text_message(MessageType::System, "invalid parameter format", None)),
        }
    }
}

#[verifier::external_type_specification]
#[verifier::external_body]
pub struct ExSystemTime(std::time::SystemTime);

/// `SystemTime::now`: the clock's reading.  It depends on the time of the
/// call, so nothing is stated of it.
#[verifier::external_body]
fn system_time_now() -> (r: std::time::SystemTime) {
    std::time::SystemTime::now()
}

/// `SystemTime::duration_since(UNIX_EPOCH)`: how far the reading lies after
/// the epoch, or, as the error's `duration` gives it, before it.  The
/// durations depend on the reading, so nothing is stated of them.
#[verifier::external_body]
fn since_unix_epoch(t: &std::time::SystemTime) -> (r: Result<core::time::Duration, core::time::Duration>) {
    match t.duration_since(std::time::UNIX_EPOCH) {
        Ok(elapsed) => Ok(elapsed),
        Err(error) => Err(error.duration()),
    }
}

/// `Duration::as_secs`: the whole seconds of a duration.
pub assume_specification[ core::time::Duration::as_secs ](d: &core::time::Duration) -> u64;

/// `Duration::subsec_nanos`: the nanoseconds past the whole seconds, which
/// the documentation puts below one second.
pub assume_specification[ core::time::Duration::subsec_nanos ](d: &core::time::Duration) -> (r: u32)
    ensures
        r < 1_000_000_000,
;

/// The nanoseconds from the epoch to a reading `secs` seconds and `nanos`
/// nanoseconds after it, or before it where `after` is false.
pub open spec fn epoch_nanos(after: bool, secs: int, nanos: int) -> int {
    if after {
        secs * 1_000_000_000 + nanos
    } else {
        -(secs * 1_000_000_000 + nanos)
    }
}

/// The instant of a reading as whole seconds from the epoch, rounded down,
/// and the nanoseconds past them; `None` where the seconds do not fit an
/// `i64`.
pub open spec fn epoch_instant_view(after: bool, secs: int, nanos: int) -> Option<(i64, u32)> {
    let total = epoch_nanos(after, secs, nanos);
    let s = total / 1_000_000_000;
    if i64::MIN <= s <= i64::MAX {
        Some((s as i64, (total % 1_000_000_000) as u32))
    } else {
        None
    }
}

/// The text chrono's `to_rfc3339` writes for the instant `secs` seconds and
/// `nanos` nanoseconds after the Unix epoch, seen at the fixed offset of
/// `offset` seconds east of UTC; `None` where chrono cannot represent the
/// instant or the offset.
pub uninterp spec fn rfc3339_text(secs: int, nanos: int, offset: int) -> Option<Seq<char>>;

/// The decimal digits of a number below a hundred, with a leading zero.
pub open spec fn two_digits(n: int) -> Seq<char> {
    seq![('0' as int + n / 10) as char, ('0' as int + n % 10) as char]
}

/// The offset as `to_rfc3339` ends its text: a sign, the hours, a colon and
/// the minutes, the offset rounded to the nearest minute.
pub open spec fn rfc3339_offset(offset: int) -> Seq<char> {
    let magnitude = if offset < 0 {
        -offset
    } else {
        offset
    };
    let minutes = (magnitude + 30) / 60;
    seq![
        if offset < 0 {
            '-'
        } else {
            '+'
        },
    ] + two_digits(minutes / 60) + seq![':'] + two_digits(minutes % 60)
}

/// Whether `text` ends with `suffix`.
pub open spec fn ends_with(text: Seq<char>, suffix: Seq<char>) -> bool {
    suffix.len() <= text.len() && text.subrange(text.len() - suffix.len(), text.len() as int) == suffix
}

/// The offset text of UTC.
pub proof fn lemma_utc_offset_text()
    ensures
        rfc3339_offset(0) == seq!['+', '0', '0', ':', '0', '0'],
{
    assert(rfc3339_offset(0) =~= seq!['+', '0', '0', ':', '0', '0']);
}

/// Formats an instant with chrono: `DateTime::from_timestamp`, moved to
/// the offset `FixedOffset::east_opt` gives and written by `to_rfc3339`.
/// The text is named `rfc3339_text`.  The source fails only on an instant
/// beyond the years chrono holds (the 8 * 10^12 seconds on either side of
/// the epoch are within them), on nanoseconds of a second or more, or on an
/// offset of a day or more; and it ends every text with the offset.
#[verifier::external_body]
fn rfc3339_at(secs: i64, nanos: u32, offset: i32) -> (r: Option<String>)
    ensures
        r is Some <==> rfc3339_text(secs as int, nanos as int, offset as int) is Some,
        r is Some ==> r->Some_0@ == rfc3339_text(secs as int, nanos as int, offset as int)->Some_0,
        -8_000_000_000_000 <= secs <= 8_000_000_000_000 && nanos < 1_000_000_000 && -86_400 < offset
            < 86_400 ==> r is Some,
        r is Some ==> ends_with(r->Some_0@, rfc3339_offset(offset as int)),
{
    let instant = chrono::DateTime::from_timestamp(secs, nanos)?;
    let zone = chrono::FixedOffset::east_opt(offset)?;
    Some(instant.with_timezone(&zone).to_rfc3339())
}

/// The JSON content of a time reading: the local and the UTC time.
pub open spec fn time_json(local: Seq<char>, utc: Seq<char>) -> Seq<char> {
    "{\"local_time\":"@ + json_string_literal(local) + ",\"utc_time\":"@ + json_string_literal(utc)
        + "}"@
}

/// The answer to an `env_current_time` call with id `id`, given the two
/// readings of the clock.
pub open spec fn time_answer_view(id: Seq<char>, local: Seq<char>, utc: Seq<char>) -> MessageView {
    tool_answer_view(
        id,
        <CurrentTime as Tool>::spec_name(),
        ToolCallResponseStatus::Success,
        time_json(local, utc),
        Some(id),
    )
}

/// The answer to an `env_current_time` call whose time could not be read.
pub open spec fn clock_failure_view(id: Seq<char>) -> MessageView {
    tool_error_answer_view(
        id,
        <CurrentTime as Tool>::spec_name(),
        ErrorView::IoError(CLOCK_FAILURE@),
        Some(id),
    )
}

/// The answer to an `env_current_time` call for the instant `secs` seconds
/// and `nanos` nanoseconds after the Unix epoch, given the local offset at
/// that instant if it is known: the local and the UTC time, or the clock
/// failure where the offset is unknown or chrono cannot write either time.
pub open spec fn reading_answer_view(id: Seq<char>, secs: int, nanos: int, offset: Option<i32>) -> MessageView {
    match offset {
        Some(o) => match (rfc3339_text(secs, nanos, o as int), rfc3339_text(secs, nanos, 0)) {
            (Some(local), Some(utc)) => time_answer_view(id, local, utc),
            _ => clock_failure_view(id),
        },
        None => clock_failure_view(id),
    }
}

/// What the answer says where the time could not be read.
pub const CLOCK_FAILURE: &'static str = "the system clock could not be read";

impl CurrentTime {
    /// The answer to an `env_current_time` call, given the local and the UTC
    /// time as RFC 3339 texts.
    pub fn response(id: String, local: &str, utc: &str) -> (r: Message)
        ensures
            r@ == time_answer_view(id@, local@, utc@),
    {
        let mut content = String::from_str("{\"local_time\":");
        content.append(json_quote(local).as_str());
        content.append(",\"utc_time\":");
        content.append(json_quote(utc).as_str());
        content.append("}");
        tool_answer(id.clone(), Self::get_name(), ToolCallResponseStatus::Success, content, Some(id))
    }

    /// The answer for an `env_current_time` call whose time could not be
    /// read.
    pub fn clock_failure(id: String) -> (r: Message)
        ensures
            r@ == clock_failure_view(id@),
    {
        let error = Error::IoError(String::from_str(CLOCK_FAILURE));
        tool_error_answer(id.clone(), Self::get_name(), &error, Some(id))
    }

    /// The answer to an `env_current_time` call for the instant `secs`
    /// seconds and `nanos` nanoseconds after the Unix epoch, given the local
    /// offset at that instant, in seconds east of UTC, where it is known.
    /// An instant within chrono's years with an offset under a day gets the
    /// time.
    pub fn reading_answer(id: String, secs: i64, nanos: u32, offset: Option<i32>) -> (r: Message)
        ensures
            r@ == reading_answer_view(id@, secs as int, nanos as int, offset),
            r@ == clock_failure_view(id@) || exists|local: Seq<char>, utc: Seq<char>|
                r@ == #[trigger] time_answer_view(id@, local, utc)
                    && ends_with(local, rfc3339_offset(offset->Some_0 as int))
                    && ends_with(utc, rfc3339_offset(0)),
            offset is Some && -8_000_000_000_000 <= secs <= 8_000_000_000_000 && nanos < 1_000_000_000
                && -86_400 < offset->Some_0 < 86_400 ==> {
                &&& rfc3339_text(secs as int, nanos as int, offset->Some_0 as int) is Some
                &&& rfc3339_text(secs as int, nanos as int, 0) is Some
                &&& r@ == time_answer_view(
                    id@,
                    rfc3339_text(secs as int, nanos as int, offset->Some_0 as int)->Some_0,
                    rfc3339_text(secs as int, nanos as int, 0)->Some_0,
                )
            },
    {
        match offset {
            None => Self::clock_failure(id),
            Some(o) => {
                let local = rfc3339_at(secs, nanos, o);
                let utc = rfc3339_at(secs, nanos, 0);
                match (local, utc) {
                    (Some(local), Some(utc)) => Self::response(id, local.as_str(), utc.as_str()),
                    _ => Self::clock_failure(id),
                }
            },
        }
    }

    /// The instant of a clock reading `secs` seconds and `nanos`
    /// nanoseconds after the epoch, or before it where `after` is false, as
    /// whole seconds from the epoch rounded down and the nanoseconds past
    /// them; `None` where the seconds do not fit an `i64`.
    pub fn epoch_instant(after: bool, secs: u64, nanos: u32) -> (r: Option<(i64, u32)>)
        requires
            nanos < 1_000_000_000,
        ensures
            r == epoch_instant_view(after, secs as int, nanos as int),
    {
        let ghost total = epoch_nanos(after, secs as int, nanos as int);
        let (s, n): (i128, u32) = if after {
            (secs as i128, nanos)
        } else if nanos == 0 {
            (-(secs as i128), 0)
        } else {
            (-(secs as i128) - 1, 1_000_000_000 - nanos)
        };
        proof {
            assert(total == s * 1_000_000_000 + n) by (nonlinear_arith)
                requires
                    total == epoch_nanos(after, secs as int, nanos as int),
                    after ==> s == secs && n == nanos,
                    !after && nanos == 0 ==> s == -secs && n == 0,
                    !after && nanos != 0 ==> s == -secs - 1 && n == 1_000_000_000 - nanos,
            ;
            vstd::arithmetic::div_mod::lemma_fundamental_div_mod_converse(total, 1_000_000_000, s as int, n as int);
        }
        if s < i64::MIN as i128 || s > i64::MAX as i128 {
            None
        } else {
            Some((s as i64, n))
        }
    }

    /// Answers an `env_current_time` call: the parameters could not be read,
    /// or the time at the clock's reading, before the epoch too, with the
    /// local offset that `local_offset` gives for the reading's second.  The
    /// clock failure answers only a reading whose seconds do not fit an
    /// `i64`, or one with no known offset, or one chrono cannot write.
    pub fn run<F: FnOnce(i64) -> Option<i32>>(
        id: String,
        parsed: Option<CurrentTimeParameters>,
        local_offset: F,
    ) -> (r: Message)
        requires
            forall|secs: i64| #![auto] call_requires(local_offset, (secs,)),
        ensures
            parsed is None ==> r@ == CurrentTimeParameters::spec_parse_failure(),
            parsed is Some ==> r@ == clock_failure_view(id@) || exists|secs: i64, nanos: u32, offset: Option<i32>|
                nanos < 1_000_000_000 && call_ensures(local_offset, (secs,), offset)
                    && r@ == #[trigger] reading_answer_view(id@, secs as int, nanos as int, offset),
            parsed is Some ==> r@ == clock_failure_view(id@) || exists|local: Seq<char>, utc: Seq<char>, offset: i32|
                #![trigger time_answer_view(id@, local, utc), rfc3339_offset(offset as int)]
                r@ == time_answer_view(id@, local, utc) && ends_with(local, rfc3339_offset(offset as int))
                    && ends_with(utc, rfc3339_offset(0)),
    {
        match CurrentTimeParameters::from_parsed(parsed) {
            Err(message) => message,
            Ok(_) => {
                let now = system_time_now();
                let (after, elapsed) = match since_unix_epoch(&now) {
                    Ok(d) => (true, d),
                    Err(d) => (false, d),
                };
                match Self::epoch_instant(after, elapsed.as_secs(), elapsed.subsec_nanos()) {
                    None => Self::clock_failure(id),
                    Some((secs, nanos)) => {
                        proof {
                            assert(nanos < 1_000_000_000);
                        }
                        let offset = local_offset(secs);
                        Self::reading_answer(id, secs, nanos, offset)
                    },
                }
            },
        }
    }
}

} // verus!
