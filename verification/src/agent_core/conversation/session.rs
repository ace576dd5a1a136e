//! The decisions of a conversation session.  The session waits for user
//! messages, the model's replies and the results of tool calls; this state
//! machine decides, for each of them, what is recorded in the history, what
//! is broadcast to the interfaces, which tool calls are started, and when
//! the model is asked again.

use crate::conversation_message::message::{
    text_message, text_message_view, Message, MessageContents, MessageType,
    MessageView,
};
use crate::conversation_message::tool_call::{
    duplicate_requests, ToolCallRequestMessage, ToolCallRequestView, ToolKind,
};
use crate::llm::error::{error_debug, Error, ErrorView};
use vstd::prelude::*;
use vstd::string::StringExecFns;

verus! {

/// How a call to the model ended: with the provider's answer, or with the
/// task that made the call panicking (held as the `Debug` text of the join
/// error).
#[derive(Debug)]
pub enum LlmOutcome {
    Finished(Result<Message, Error>),
    Panicked(String),
}

pub enum LlmOutcomeView {
    Finished(Result<MessageView, ErrorView>),
    Panicked(Seq<char>),
}

impl View for LlmOutcome {
    type V = LlmOutcomeView;

    open spec fn view(&self) -> LlmOutcomeView {
        match self {
            LlmOutcome::Finished(Ok(m)) => LlmOutcomeView::Finished(Ok(m@)),
            LlmOutcome::Finished(Err(e)) => LlmOutcomeView::Finished(Err(e@)),
            LlmOutcome::Panicked(d) => LlmOutcomeView::Panicked(d@),
        }
    }
}

/// How a tool call ended: with the tool's message, or with its task
/// panicking (held as the `Debug` text of the join error).
#[derive(Debug)]
pub enum ToolOutcome {
    Finished(Message),
    Panicked(String),
}

pub enum ToolOutcomeView {
    Finished(MessageView),
    Panicked(Seq<char>),
}

impl View for ToolOutcome {
    type V = ToolOutcomeView;

    open spec fn view(&self) -> ToolOutcomeView {
        match self {
            ToolOutcome::Finished(m) => ToolOutcomeView::Finished(m@),
            ToolOutcome::Panicked(d) => ToolOutcomeView::Panicked(d@),
        }
    }
}

/// What the model's reply amounts to: a message to record in the history,
/// or a notice that is only broadcast.
#[derive(Debug)]
pub struct LlmResponse {
    pub record: Option<Message>,
    pub notice: Option<Message>,
}

pub struct LlmResponseView {
    pub record: Option<MessageView>,
    pub notice: Option<MessageView>,
}

impl View for LlmResponse {
    type V = LlmResponseView;

    open spec fn view(&self) -> LlmResponseView {
        LlmResponseView {
            record: match self.record {
                Some(m) => Some(m@),
                None => None,
            },
            notice: match self.notice {
                Some(m) => Some(m@),
                None => None,
            },
        }
    }
}

/// What a step asks of the code around the state machine: the messages to
/// broadcast, in order, and the tool calls to start.
#[derive(Debug)]
pub struct SessionStep {
    pub broadcast: Vec<Message>,
    pub spawn: Vec<ToolCallRequestMessage>,
}

pub struct SessionStepView {
    pub broadcast: Seq<MessageView>,
    pub spawn: Seq<ToolCallRequestView>,
}

impl View for SessionStep {
    type V = SessionStepView;

    open spec fn view(&self) -> SessionStepView {
        SessionStepView {
            broadcast: self.broadcast@.map_values(|m: Message| m@),
            spawn: self.spawn@.map_values(|r: ToolCallRequestMessage| r@),
        }
    }
}

/// The state of a conversation: the history, the tools offered to the
/// model, whether a call to the model is under way and whether a new
/// message waits for the model's answer.
pub struct ConversationState {
    message_history: Vec<Message>,
    tools: Vec<ToolKind>,
    llm_call_in_flight: bool,
    message_queued: bool,
}

pub struct ConversationStateView {
    pub history: Seq<MessageView>,
    pub tools: Seq<ToolKind>,
    pub llm_call_in_flight: bool,
    pub message_queued: bool,
}

impl View for ConversationState {
    type V = ConversationStateView;

    closed spec fn view(&self) -> ConversationStateView {
        ConversationStateView {
            history: self.message_history@.map_values(|m: Message| m@),
            tools: self.tools@,
            llm_call_in_flight: self.llm_call_in_flight,
            message_queued: self.message_queued,
        }
    }
}

/// The system message recorded when the reply had the wrong number of
/// choices.
pub open spec fn invalid_choice_count_view() -> MessageView {
    text_message_view(MessageType::System, "invalid choice count received in the response"@, None)
}

/// What the model's reply amounts to.  A reply is recorded; a reply with
/// the wrong number of choices is recorded as a system message; any other
/// failure, and a panicked call, only gives a system notice.
pub open spec fn llm_response_view(outcome: LlmOutcomeView) -> LlmResponseView {
    match outcome {
        LlmOutcomeView::Finished(Ok(m)) => LlmResponseView { record: Some(m), notice: None },
        LlmOutcomeView::Finished(Err(ErrorView::InvalidChoiceCount)) => LlmResponseView {
            record: Some(invalid_choice_count_view()),
            notice: None,
        },
        LlmOutcomeView::Finished(Err(e)) => LlmResponseView {
            record: None,
            notice: Some(
                text_message_view(
                    MessageType::System,
                    "An error has occurred: "@ + error_debug(e),
                    None,
                ),
            ),
        },
        LlmOutcomeView::Panicked(d) => LlmResponseView {
            record: None,
            notice: Some(text_message_view(MessageType::System, "An error has occurred "@ + d, None)),
        },
    }
}

/// The tool calls a recorded message asks for.
pub open spec fn requested_calls(m: MessageView) -> Seq<ToolCallRequestView> {
    if m.message_type == MessageType::ToolCallRequest && m.contents is ToolCallRequests {
        m.contents->ToolCallRequests_0
    } else {
        Seq::empty()
    }
}

/// Whether the model is to be asked now: a message waits, no tool call is
/// running and no call to the model is under way.
pub open spec fn ready_view(s: ConversationStateView, tasks_idle: bool) -> bool {
    s.message_queued && tasks_idle && !s.llm_call_in_flight
}

/// The state after a user message: recorded and waiting for the model.
pub open spec fn after_user_message(s: ConversationStateView, m: MessageView) -> ConversationStateView {
    ConversationStateView { history: s.history.push(m), message_queued: true, ..s }
}

/// The state once the model is asked: the waiting message is taken up and
/// the call is under way.
pub open spec fn after_llm_start(s: ConversationStateView) -> ConversationStateView {
    ConversationStateView { llm_call_in_flight: true, message_queued: false, ..s }
}

/// The state and the step after the model's reply: the call is over; a
/// recorded message is broadcast, appended to the history and its tool
/// calls are started; a notice is only broadcast.
pub open spec fn after_llm_finished(s: ConversationStateView, outcome: LlmOutcomeView) -> (
    ConversationStateView,
    SessionStepView,
) {
    let response = llm_response_view(outcome);
    match response.record {
        Some(m) => (
            ConversationStateView { history: s.history.push(m), llm_call_in_flight: false, ..s },
            SessionStepView { broadcast: seq![m], spawn: requested_calls(m) },
        ),
        None => (
            ConversationStateView { llm_call_in_flight: false, ..s },
            SessionStepView {
                broadcast: match response.notice {
                    Some(n) => seq![n],
                    None => Seq::empty(),
                },
                spawn: Seq::empty(),
            },
        ),
    }
}

/// The state and the step after a tool call ended: its message is
/// broadcast, recorded and waits for the model; a panicked call changes
/// nothing.
pub open spec fn after_tool_finished(s: ConversationStateView, outcome: ToolOutcomeView) -> (
    ConversationStateView,
    SessionStepView,
) {
    match outcome {
        ToolOutcomeView::Finished(m) => (
            ConversationStateView { history: s.history.push(m), message_queued: true, ..s },
            SessionStepView { broadcast: seq![m], spawn: Seq::empty() },
        ),
        ToolOutcomeView::Panicked(_) => (s, SessionStepView { broadcast: Seq::empty(), spawn: Seq::empty() }),
    }
}

/// A copy of a list of messages.
pub fn duplicate_messages(ms: &Vec<Message>) -> (r: Vec<Message>)
    ensures
        r@.map_values(|m: Message| m@) == ms@.map_values(|m: Message| m@),
{
    let mut r: Vec<Message> = Vec::new();
    let n = ms.len();
    let mut i: usize = 0;
    while i < n
        invariant
            n == ms@.len(),
            0 <= i <= n,
            r@.len() == i,
            forall|j: int| 0 <= j < i ==> #[trigger] r@[j]@ == ms@[j]@,
        decreases n - i,
    {
        r.push(ms[i].duplicate());
        i = i + 1;
    }
    assert(r@.map_values(|m: Message| m@) =~= ms@.map_values(|m: Message| m@));
    r
}

fn duplicate_tools(ts: &Vec<ToolKind>) -> (r: Vec<ToolKind>)
    ensures
        r@ == ts@,
{
    let mut r: Vec<ToolKind> = Vec::new();
    let n = ts.len();
    let mut i: usize = 0;
    while i < n
        invariant
            n == ts@.len(),
            0 <= i <= n,
            r@ =~= ts@.take(i as int),
        decreases n - i,
    {
        r.push(ts[i]);
        i = i + 1;
    }
    assert(ts@.take(n as int) =~= ts@);
    r
}

impl ConversationState {
    /// A session over an existing history, offering `tools`, with nothing
    /// waiting and no call under way.
    pub fn new(message_history: Vec<Message>, tools: Vec<ToolKind>) -> (r: ConversationState)
        ensures
            r@.history == message_history@.map_values(|m: Message| m@),
            r@.tools == tools@,
            !r@.llm_call_in_flight,
            !r@.message_queued,
    {
        ConversationState { message_history, tools, llm_call_in_flight: false, message_queued: false }
    }

    /// A copy of the history.
    pub fn get_message_history(&self) -> (r: Vec<Message>)
        ensures
            r@.map_values(|m: Message| m@) == self@.history,
    {
        duplicate_messages(&self.message_history)
    }

    /// A copy of the tools offered to the model.
    pub fn get_tools(&self) -> (r: Vec<ToolKind>)
        ensures
            r@ == self@.tools,
    {
        duplicate_tools(&self.tools)
    }

    /// Offers `tools` from the next call on.
    pub fn set_tools(&mut self, tools: Vec<ToolKind>)
        ensures
            final(self)@ == (ConversationStateView { tools: tools@, ..old(self)@ }),
    {
        self.tools = tools;
    }

    /// Whether a call to the model is under way.
    pub fn llm_call_in_flight(&self) -> (r: bool)
        ensures
            r == self@.llm_call_in_flight,
    {
        self.llm_call_in_flight
    }

    /// Records a user message; it waits for the model.  The message to
    /// broadcast is returned.
    pub fn on_user_message(&mut self, message: Message) -> (r: Message)
        ensures
            final(self)@ == after_user_message(old(self)@, message@),
            r@ == message@,
    {
        let broadcast = message.duplicate();
        self.message_history.push(message);
        self.message_queued = true;
        proof {
            assert(self@.history =~= old(self)@.history.push(message@));
        }
        broadcast
    }

    /// Whether the model is to be asked now, given whether any tool call is
    /// still running.
    pub fn ready_for_llm_call(&self, tasks_idle: bool) -> (r: bool)
        ensures
            r == ready_view(self@, tasks_idle),
    {
        self.message_queued && tasks_idle && !self.llm_call_in_flight
    }

    /// Starts a call to the model; returns the history and the tools to
    /// send.
    pub fn start_llm_call(&mut self) -> (r: (Vec<Message>, Vec<ToolKind>))
        requires
            old(self)@.message_queued,
            !old(self)@.llm_call_in_flight,
        ensures
            final(self)@ == after_llm_start(old(self)@),
            r.0@.map_values(|m: Message| m@) == old(self)@.history,
            r.1@ == old(self)@.tools,
    {
        self.message_queued = false;
        self.llm_call_in_flight = true;
        (duplicate_messages(&self.message_history), duplicate_tools(&self.tools))
    }

    /// What the model's reply amounts to: a message to record, or a notice.
    pub fn llm_response_handler(response: LlmOutcome) -> (r: LlmResponse)
        ensures
            r@ == llm_response_view(response@),
    {
        match response {
            LlmOutcome::Finished(Ok(message)) => LlmResponse { record: Some(message), notice: None },
            LlmOutcome::Finished(Err(Error::InvalidChoiceCount)) => LlmResponse {
                record: Some(
                    text_message(
                        MessageType::System,
                        "invalid choice count received in the response",
                        None,
                    ),
                ),
                notice: None,
            },
            LlmOutcome::Finished(Err(error)) => {
                let mut text = String::from_str("An error has occurred: ");
                text.append(error.to_debug_string().as_str());
                LlmResponse {
                    record: None,
                    notice: Some(text_message(MessageType::System, text.as_str(), None)),
                }
            },
            LlmOutcome::Panicked(debug) => {
                let mut text = String::from_str("An error has occurred ");
                text.append(debug.as_str());
                LlmResponse {
                    record: None,
                    notice: Some(text_message(MessageType::System, text.as_str(), None)),
                }
            },
        }
    }

    /// Takes in the model's reply: the call is over; what it amounts to is
    /// broadcast, and recorded with its tool calls started, or only
    /// broadcast as a notice.
    pub fn on_llm_finished(&mut self, outcome: LlmOutcome) -> (r: SessionStep)
        ensures
            (final(self)@, r@) == after_llm_finished(old(self)@, outcome@),
            final(self)@.message_queued == old(self)@.message_queued,
            !final(self)@.llm_call_in_flight,
    {
        self.llm_call_in_flight = false;
        let response = Self::llm_response_handler(outcome);
        let mut broadcast: Vec<Message> = Vec::new();
        let mut spawn: Vec<ToolCallRequestMessage> = Vec::new();
        match response.record {
            Some(message) => {
                broadcast.push(message.duplicate());
                if message.message_type == MessageType::ToolCallRequest {
                    if let MessageContents::ToolCallRequests(requests) = &message.contents {
                        spawn = duplicate_requests(requests);
                    }
                }
                self.message_history.push(message);
            },
            None => {
                if let Some(notice) = response.notice {
                    broadcast.push(notice);
                }
            },
        }
        let r = SessionStep { broadcast, spawn };
        proof {
            let (s2, st) = after_llm_finished(old(self)@, outcome@);
            assert(self@.history =~= s2.history);
            assert(r@.broadcast =~= st.broadcast);
            assert(r@.spawn =~= st.spawn);
        }
        r
    }

    /// Takes in the end of a tool call: its message is broadcast, recorded
    /// and waits for the model; a panicked call changes nothing.
    pub fn on_tool_finished(&mut self, outcome: ToolOutcome) -> (r: SessionStep)
        ensures
            (final(self)@, r@) == after_tool_finished(old(self)@, outcome@),
    {
        let mut broadcast: Vec<Message> = Vec::new();
        match outcome {
            ToolOutcome::Finished(message) => {
                broadcast.push(message.duplicate());
                self.message_history.push(message);
                self.message_queued = true;
            },
            ToolOutcome::Panicked(_) => {},
        }
        let r = SessionStep { broadcast, spawn: Vec::new() };
        proof {
            let (s2, st) = after_tool_finished(old(self)@, outcome@);
            assert(self@.history =~= s2.history);
            assert(r@.broadcast =~= st.broadcast);
            assert(r@.spawn =~= st.spawn);
        }
        r
    }
}

/// The events a session reacts to.
pub enum SessionEventView {
    UserMessage(MessageView),
    LlmStarted,
    LlmFinished(LlmOutcomeView),
    ToolFinished(ToolOutcomeView),
}

/// The state and the step after an event.  A user message is broadcast as
/// it is recorded; starting a call broadcasts nothing.
pub open spec fn session_step(s: ConversationStateView, e: SessionEventView) -> (
    ConversationStateView,
    SessionStepView,
) {
    match e {
        SessionEventView::UserMessage(m) => (
            after_user_message(s, m),
            SessionStepView { broadcast: seq![m], spawn: Seq::empty() },
        ),
        SessionEventView::LlmStarted => (
            after_llm_start(s),
            SessionStepView { broadcast: Seq::empty(), spawn: Seq::empty() },
        ),
        SessionEventView::LlmFinished(o) => after_llm_finished(s, o),
        SessionEventView::ToolFinished(o) => after_tool_finished(s, o),
    }
}

/// The history only grows: every event keeps what was recorded and adds
/// at most one message, which is then the first message broadcast.
pub proof fn lemma_history_append_only(s: ConversationStateView, e: SessionEventView)
    ensures
        ({
            let (s2, st) = session_step(s, e);
            ||| s2.history == s.history
            ||| st.broadcast.len() >= 1 && s2.history == s.history.push(st.broadcast[0])
        }),
{
}

/// Only one call to the model at a time: the model is asked only when no
/// call is under way; once asked, it is not asked again until its reply is
/// taken in, whatever else happens meanwhile.
pub proof fn lemma_one_llm_call_at_a_time(
    s: ConversationStateView,
    e: SessionEventView,
    tasks_idle: bool,
)
    ensures
        ready_view(s, tasks_idle) ==> !s.llm_call_in_flight,
        !ready_view(after_llm_start(s), tasks_idle),
        s.llm_call_in_flight && !(e is LlmFinished) ==> session_step(s, e).0.llm_call_in_flight,
        forall|o: LlmOutcomeView| !(#[trigger] session_step(s, SessionEventView::LlmFinished(o))).0.llm_call_in_flight,
{
}

/// A user message, or the result of a tool call, leaves the session waiting
/// for the model; once no tool call runs and no call is under way, the
/// model is asked.
pub proof fn lemma_new_message_asks_model(s: ConversationStateView, m: MessageView)
    ensures
        session_step(s, SessionEventView::UserMessage(m)).0.message_queued,
        session_step(s, SessionEventView::ToolFinished(ToolOutcomeView::Finished(m))).0.message_queued,
        !s.llm_call_in_flight ==> ready_view(session_step(s, SessionEventView::UserMessage(m)).0, true),
{
}

/// Taking in the model's reply, whatever it is, leaves the queue as it was:
/// a reply never by itself makes the session ready to ask the model again,
/// so after a plain text reply to a conversation with nothing waiting the
/// session waits for the user.
pub proof fn lemma_reply_leaves_queue(s: ConversationStateView, o: LlmOutcomeView, tasks_idle: bool)
    ensures
        session_step(s, SessionEventView::LlmFinished(o)).0.message_queued == s.message_queued,
        !s.message_queued ==> !ready_view(session_step(s, SessionEventView::LlmFinished(o)).0, tasks_idle),
{
}

/// The tool calls the model asks for are started, each of them, in order,
/// and nothing else is started.
pub proof fn lemma_requested_tools_started(s: ConversationStateView, m: MessageView)
    ensures
        session_step(s, SessionEventView::LlmFinished(LlmOutcomeView::Finished(Ok(m)))).1.spawn
            == requested_calls(m),
        session_step(s, SessionEventView::LlmFinished(LlmOutcomeView::Finished(Ok(m)))).0.history
            == s.history.push(m),
{
}

/// A failed call to the model is reported and not recorded: the history
/// stays as it was and one system notice is broadcast.  The exception is a
/// reply with the wrong number of choices, which is recorded.
pub proof fn lemma_failure_not_recorded(s: ConversationStateView, o: LlmOutcomeView)
    requires
        !(o matches LlmOutcomeView::Finished(r) && (r is Ok || r->Err_0 is InvalidChoiceCount)),
    ensures
        session_step(s, SessionEventView::LlmFinished(o)).0.history == s.history,
        session_step(s, SessionEventView::LlmFinished(o)).1.broadcast.len() == 1,
        session_step(s, SessionEventView::LlmFinished(o)).1.broadcast[0].message_type
            == MessageType::System,
        session_step(s, SessionEventView::LlmFinished(o)).1.spawn.len() == 0,
{
}

/// A session with the tool calls it has started and that have not ended
/// yet, as the code around the state machine keeps them.
pub struct SessionRunView {
    pub session: ConversationStateView,
    pub pending_tools: nat,
}

/// A session at rest: no call to the model under way and no tool call
/// running.
pub open spec fn run_idle(r: SessionRunView) -> bool {
    !r.session.llm_call_in_flight && r.pending_tools == 0
}

/// When the code around the state machine lets an event happen: a user
/// message at any time; a call to the model when the session is ready with
/// no tool call running; the model's reply while its call is under way; the
/// end of a tool call while one runs.
pub open spec fn run_event_allowed(r: SessionRunView, e: SessionEventView) -> bool {
    match e {
        SessionEventView::UserMessage(_) => true,
        SessionEventView::LlmStarted => ready_view(r.session, r.pending_tools == 0),
        SessionEventView::LlmFinished(_) => r.session.llm_call_in_flight,
        SessionEventView::ToolFinished(_) => r.pending_tools > 0,
    }
}

/// The run after an event: the session's step, with the tool calls it
/// starts added to those running and an ended one taken away.
pub open spec fn run_step(r: SessionRunView, e: SessionEventView) -> SessionRunView {
    let (s2, st) = session_step(r.session, e);
    SessionRunView {
        session: s2,
        pending_tools: (r.pending_tools + st.spawn.len() - if e is ToolFinished {
            1int
        } else {
            0int
        }) as nat,
    }
}

/// The run after the first `i` events.
pub open spec fn run_state_at(r0: SessionRunView, events: Seq<SessionEventView>, i: nat) -> SessionRunView
    decreases i,
{
    if i == 0 {
        r0
    } else {
        run_step(run_state_at(r0, events, (i - 1) as nat), events[i - 1])
    }
}

/// A run in which every event happens only when it is allowed.
pub open spec fn valid_run(r0: SessionRunView, events: Seq<SessionEventView>) -> bool {
    forall|i: nat| i < events.len() ==> run_event_allowed(#[trigger] run_state_at(r0, events, i), events[i as int])
}

/// How many tool calls an event starts, counted from the event alone.
pub open spec fn tools_started_by(e: SessionEventView) -> nat {
    match e {
        SessionEventView::LlmFinished(o) => match llm_response_view(o).record {
            Some(m) => requested_calls(m).len(),
            None => 0,
        },
        _ => 0,
    }
}

/// Tool calls started by the first `i` events.
pub open spec fn tools_started(events: Seq<SessionEventView>, i: nat) -> nat
    decreases i,
{
    if i == 0 {
        0
    } else {
        tools_started(events, (i - 1) as nat) + tools_started_by(events[i - 1])
    }
}

/// Tool calls ended among the first `i` events.
pub open spec fn tools_ended(events: Seq<SessionEventView>, i: nat) -> nat
    decreases i,
{
    if i == 0 {
        0
    } else {
        tools_ended(events, (i - 1) as nat) + if events[i - 1] is ToolFinished {
            1nat
        } else {
            0nat
        }
    }
}

/// Calls to the model started among the first `i` events.
pub open spec fn llm_calls_started(events: Seq<SessionEventView>, i: nat) -> nat
    decreases i,
{
    if i == 0 {
        0
    } else {
        llm_calls_started(events, (i - 1) as nat) + if events[i - 1] is LlmStarted {
            1nat
        } else {
            0nat
        }
    }
}

/// Replies of the model taken in among the first `i` events.
pub open spec fn llm_calls_ended(events: Seq<SessionEventView>, i: nat) -> nat
    decreases i,
{
    if i == 0 {
        0
    } else {
        llm_calls_ended(events, (i - 1) as nat) + if events[i - 1] is LlmFinished {
            1nat
        } else {
            0nat
        }
    }
}

/// Over a whole run from rest, counted from the events alone: the calls to
/// the model started exceed those ended by one while a call is under way
/// and by none otherwise, so at most one call is ever under way; the tool
/// calls still running are those started less those ended; and while the
/// model is asked, no tool call runs.
pub proof fn lemma_run_counts(r0: SessionRunView, events: Seq<SessionEventView>, i: nat)
    requires
        run_idle(r0),
        valid_run(r0, events),
        i <= events.len(),
    ensures
        llm_calls_started(events, i) == llm_calls_ended(events, i) + if run_state_at(
            r0,
            events,
            i,
        ).session.llm_call_in_flight {
            1nat
        } else {
            0nat
        },
        tools_ended(events, i) <= tools_started(events, i),
        run_state_at(r0, events, i).pending_tools == tools_started(events, i) - tools_ended(events, i),
        run_state_at(r0, events, i).session.llm_call_in_flight ==> run_state_at(r0, events, i).pending_tools == 0,
    decreases i,
{
    if i > 0 {
        let k = (i - 1) as nat;
        lemma_run_counts(r0, events, k);
        assert(run_event_allowed(run_state_at(r0, events, k), events[k as int]));
    }
}

/// Each call to the model in a run from rest starts when no other call is
/// under way and every tool call started before it has ended.
pub proof fn lemma_request_waits_for_tools(r0: SessionRunView, events: Seq<SessionEventView>, i: nat)
    requires
        run_idle(r0),
        valid_run(r0, events),
        i < events.len(),
        events[i as int] is LlmStarted,
    ensures
        llm_calls_started(events, i) == llm_calls_ended(events, i),
        tools_ended(events, i) == tools_started(events, i),
        llm_calls_started(events, i + 1) == llm_calls_ended(events, i + 1) + 1,
{
    lemma_run_counts(r0, events, i);
    lemma_run_counts(r0, events, i + 1);
    assert(run_event_allowed(run_state_at(r0, events, i), events[i as int]));
}

/// Along any run, the history only grows: what is recorded after the first
/// `i` events stays, in place, at the start of the history after the first
/// `j`.
pub proof fn lemma_run_history_grows(r0: SessionRunView, events: Seq<SessionEventView>, i: nat, j: nat)
    requires
        i <= j <= events.len(),
    ensures
        run_state_at(r0, events, i).session.history.len() <= run_state_at(r0, events, j).session.history.len(),
        run_state_at(r0, events, j).session.history.subrange(
            0,
            run_state_at(r0, events, i).session.history.len() as int,
        ) == run_state_at(r0, events, i).session.history,
    decreases j,
{
    if j > i {
        let k = (j - 1) as nat;
        lemma_run_history_grows(r0, events, i, k);
        let h = run_state_at(r0, events, i).session.history;
        let hk = run_state_at(r0, events, k).session.history;
        let hj = run_state_at(r0, events, j).session.history;
        lemma_history_append_only(run_state_at(r0, events, k).session, events[k as int]);
        assert(hj.subrange(0, h.len() as int) =~= hk.subrange(0, h.len() as int));
    } else {
        let h = run_state_at(r0, events, i).session.history;
        assert(h.subrange(0, h.len() as int) =~= h);
    }
}

/// A user message is recorded once, at the end of the history, and waits
/// for the model: until the model is next asked it stays queued, and the
/// history that the next call sends holds it where it was recorded.
pub proof fn lemma_user_message_reaches_model(
    r0: SessionRunView,
    events: Seq<SessionEventView>,
    i: nat,
    j: nat,
    m: MessageView,
)
    requires
        i < j <= events.len(),
        events[i as int] == SessionEventView::UserMessage(m),
        forall|t: int| i < t < j ==> !(#[trigger] events[t] is LlmStarted),
    ensures
        run_state_at(r0, events, i + 1).session.history == run_state_at(r0, events, i).session.history.push(m),
        run_state_at(r0, events, j).session.message_queued,
        run_state_at(r0, events, j).session.history[run_state_at(r0, events, i).session.history.len() as int] == m,
    decreases j,
{
    let n = run_state_at(r0, events, i).session.history.len();
    if j > i + 1 {
        let k = (j - 1) as nat;
        lemma_user_message_reaches_model(r0, events, i, k, m);
        assert(!(events[k as int] is LlmStarted));
    }
    lemma_run_history_grows(r0, events, i + 1, j);
    let h1 = run_state_at(r0, events, i + 1).session.history;
    assert(h1[n as int] == m);
    assert(run_state_at(r0, events, j).session.history.subrange(0, h1.len() as int)[n as int] == m);
}

/// A reply that asks for tools is recorded before any tool result, and
/// starts each requested call once: the calls running grow by exactly the
/// number requested.
pub proof fn lemma_run_tools_requested(r0: SessionRunView, events: Seq<SessionEventView>, i: nat, m: MessageView)
    requires
        i < events.len(),
        events[i as int] == SessionEventView::LlmFinished(LlmOutcomeView::Finished(Ok(m))),
    ensures
        run_state_at(r0, events, i + 1).session.history == run_state_at(r0, events, i).session.history.push(m),
        run_state_at(r0, events, i + 1).pending_tools == run_state_at(r0, events, i).pending_tools
            + requested_calls(m).len(),
        session_step(run_state_at(r0, events, i).session, events[i as int]).1.spawn == requested_calls(m),
{
}

} // verus!
