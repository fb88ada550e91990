//! The chat orchestrator: a state machine that drives the tool-calling
//! protocol.  Each step consumes one event from the boundary (an HTTP
//! exchange, a finished backoff pause, a parsed argument set, a search
//! result) and decides the next action: call the provider, pause, run the
//! search tool, answer, or fail.  At most one tool round-trip is taken per
//! request, and each provider call is retried up to three times on
//! transient failures with doubling backoff.
use vstd::prelude::*;
use crate::chat::{
    classify_view, ApiEvent, ApiEventV, ChatRequest, Outcome, OutcomeV, OutMessage, OutMessageV,
    ReplyMessage, ReplyMessageV, ToolCallData, ToolCallDataV, context_view, build_context,
    classify_response, MODEL_NAME, TOOL_NAME,
};
use crate::error::{AppError, AppErrorV};
use crate::search::{
    search_params, search_params_view, payload_json, tool_payload, SearchDefinitionsParams,
    SearchDefinitionsParamsV, SearchOutput, SearchOutputV, ToolArgs, ToolArgsV,
};

verus! {

/// Whether the provider may pick the tool, or is forbidden to.
#[derive(Debug, Clone, Copy, PartialEq, Eq, Structural)]
pub enum ToolChoice {
    Auto,
    NoTools,
}

impl DeepView for ToolChoice {
    type V = ToolChoice;

    open spec fn deep_view(&self) -> ToolChoice {
        *self
    }
}

/// One outbound chat-completion request: the model, the full message list,
/// and the tool-choice mode.  The declared tool rides along on every call.
#[derive(Debug, Clone, PartialEq, Eq)]
pub struct RequestBody {
    pub model: String,
    pub messages: Vec<OutMessage>,
    pub tool_choice: ToolChoice,
}

pub struct RequestBodyV {
    pub model: Seq<char>,
    pub messages: Seq<OutMessageV>,
    pub tool_choice: ToolChoice,
}

impl DeepView for RequestBody {
    type V = RequestBodyV;

    open spec fn deep_view(&self) -> RequestBodyV {
        RequestBodyV {
            model: self.model@,
            messages: self.messages.deep_view(),
            tool_choice: self.tool_choice,
        }
    }
}

/// What the boundary must do next.
#[derive(Debug, Clone, PartialEq, Eq)]
pub enum Action {
    /// Send this chat-completion request and report the exchange.
    CallApi(RequestBody),
    /// Sleep this many milliseconds, then report `Resumed`.
    Pause { delay_ms: u64 },
    /// Parse this text as the tool's argument schema and report the result.
    ParseArgs { text: String },
    /// Run the search tool with these parameters and report the result.
    RunSearch(SearchDefinitionsParams),
    /// The conversation is done: hand this reply to the caller.
    Respond { reply: String },
    /// The conversation failed: hand this error to the caller.
    Fail { error: AppError },
}

pub enum ActionV {
    CallApi(RequestBodyV),
    Pause { delay_ms: u64 },
    ParseArgs { text: Seq<char> },
    RunSearch(SearchDefinitionsParamsV),
    Respond { reply: Seq<char> },
    Fail { error: AppErrorV },
}

impl DeepView for Action {
    type V = ActionV;

    open spec fn deep_view(&self) -> ActionV {
        match self {
            Action::CallApi(b) => ActionV::CallApi(b.deep_view()),
            Action::Pause { delay_ms } => ActionV::Pause { delay_ms: *delay_ms },
            Action::ParseArgs { text } => ActionV::ParseArgs { text: text@ },
            Action::RunSearch(p) => ActionV::RunSearch(p.deep_view()),
            Action::Respond { reply } => ActionV::Respond { reply: reply@ },
            Action::Fail { error } => ActionV::Fail { error: error.deep_view() },
        }
    }
}

/// What the boundary reports back.
#[derive(Debug)]
pub enum Event {
    /// An HTTP exchange with the provider finished.
    Api(ApiEvent),
    /// The requested pause elapsed.
    Resumed,
    /// The argument text parsed to the tool's schema, or failed with this
    /// parser complaint.
    Args(Result<ToolArgs, String>),
    /// The search tool finished, or failed with this error.
    Search(Result<SearchOutput, AppError>),
}

pub enum EventV {
    Api(ApiEventV),
    Resumed,
    Args(Result<ToolArgsV, Seq<char>>),
    Search(Result<SearchOutputV, AppErrorV>),
}

impl DeepView for Event {
    type V = EventV;

    open spec fn deep_view(&self) -> EventV {
        match self {
            Event::Api(e) => EventV::Api(e.deep_view()),
            Event::Resumed => EventV::Resumed,
            Event::Args(r) => EventV::Args(
                match r {
                    Ok(a) => Ok(a.deep_view()),
                    Err(e) => Err(e@),
                },
            ),
            Event::Search(r) => EventV::Search(
                match r {
                    Ok(o) => Ok(o.deep_view()),
                    Err(e) => Err(e.deep_view()),
                },
            ),
        }
    }
}

/// Where the protocol stands.
#[derive(Debug, Clone, PartialEq, Eq)]
pub enum Phase {
    /// The numbered attempt of the first call is in flight.
    AwaitFirst { attempt: u8 },
    /// Backing off before the numbered attempt of the first call.
    PauseFirst { attempt: u8 },
    /// The tool call's argument text is being parsed.
    AwaitArgs { call: ToolCallData, assistant: ReplyMessage, text: String },
    /// The search tool is running.
    AwaitSearch { call: ToolCallData, assistant: ReplyMessage },
    /// The numbered attempt of the second call is in flight.
    AwaitSecond { attempt: u8 },
    /// Backing off before the numbered attempt of the second call.
    PauseSecond { attempt: u8 },
    /// The reply is ready.
    Finished { reply: String },
    /// The request failed.
    Failed { error: AppError },
}

pub enum PhaseV {
    AwaitFirst { attempt: u8 },
    PauseFirst { attempt: u8 },
    AwaitArgs { call: ToolCallDataV, assistant: ReplyMessageV, text: Seq<char> },
    AwaitSearch { call: ToolCallDataV, assistant: ReplyMessageV },
    AwaitSecond { attempt: u8 },
    PauseSecond { attempt: u8 },
    Finished { reply: Seq<char> },
    Failed { error: AppErrorV },
}

impl DeepView for Phase {
    type V = PhaseV;

    open spec fn deep_view(&self) -> PhaseV {
        match self {
            Phase::AwaitFirst { attempt } => PhaseV::AwaitFirst { attempt: *attempt },
            Phase::PauseFirst { attempt } => PhaseV::PauseFirst { attempt: *attempt },
            Phase::AwaitArgs { call, assistant, text } => PhaseV::AwaitArgs {
                call: call.deep_view(),
                assistant: assistant.deep_view(),
                text: text@,
            },
            Phase::AwaitSearch { call, assistant } => PhaseV::AwaitSearch {
                call: call.deep_view(),
                assistant: assistant.deep_view(),
            },
            Phase::AwaitSecond { attempt } => PhaseV::AwaitSecond { attempt: *attempt },
            Phase::PauseSecond { attempt } => PhaseV::PauseSecond { attempt: *attempt },
            Phase::Finished { reply } => PhaseV::Finished { reply: reply@ },
            Phase::Failed { error } => PhaseV::Failed { error: error.deep_view() },
        }
    }
}

/// The orchestrator: the protocol phase and the conversation context built
/// so far.
#[derive(Debug, Clone, PartialEq, Eq)]
pub struct Orchestrator {
    pub phase: Phase,
    pub messages: Vec<OutMessage>,
}

pub struct OrchestratorV {
    pub phase: PhaseV,
    pub messages: Seq<OutMessageV>,
}

impl DeepView for Orchestrator {
    type V = OrchestratorV;

    open spec fn deep_view(&self) -> OrchestratorV {
        OrchestratorV { phase: self.phase.deep_view(), messages: self.messages.deep_view() }
    }
}

/// How many attempts each provider call is allowed.
pub const MAX_ATTEMPTS: u8 = 3;

/// Two to the power `k`.
pub open spec fn pow2n(k: nat) -> nat
    decreases k,
{
    if k == 0 {
        1
    } else {
        2 * pow2n((k - 1) as nat)
    }
}

/// The backoff taken after the numbered attempt failed transiently: 500 ms
/// doubled for each later attempt.
pub open spec fn backoff_delay_ms(attempt: int) -> int {
    500 * (pow2n((attempt - 1) as nat) as int)
}

/// The backoff before the retry that follows the numbered attempt.
pub fn backoff_for(attempt: u8) -> (r: u64)
    requires
        1 <= attempt < MAX_ATTEMPTS,
    ensures
        r == backoff_delay_ms(attempt as int),
{
    proof {
        assert(pow2n(0) == 1);
        assert(pow2n(1) == 2);
    }
    if attempt == 1 {
        500
    } else {
        1000
    }
}

/// Attempt counters stay within the allowed range.
pub open spec fn phase_wf(p: PhaseV) -> bool {
    match p {
        PhaseV::AwaitFirst { attempt } => 1 <= attempt <= MAX_ATTEMPTS,
        PhaseV::PauseFirst { attempt } => 1 <= attempt <= MAX_ATTEMPTS,
        PhaseV::AwaitSecond { attempt } => 1 <= attempt <= MAX_ATTEMPTS,
        PhaseV::PauseSecond { attempt } => 1 <= attempt <= MAX_ATTEMPTS,
        _ => true,
    }
}

/// Which event each phase waits for.
pub open spec fn expects(p: PhaseV, ev: EventV) -> bool {
    match (p, ev) {
        (PhaseV::AwaitFirst { .. }, EventV::Api(_)) => true,
        (PhaseV::PauseFirst { .. }, EventV::Resumed) => true,
        (PhaseV::AwaitArgs { .. }, EventV::Args(_)) => true,
        (PhaseV::AwaitSearch { .. }, EventV::Search(_)) => true,
        (PhaseV::AwaitSecond { .. }, EventV::Api(_)) => true,
        (PhaseV::PauseSecond { .. }, EventV::Resumed) => true,
        _ => false,
    }
}

/// The first tool call of a response message, if any.
pub open spec fn first_tool_call(m: ReplyMessageV) -> Option<ToolCallDataV> {
    match m.tool_calls {
        Some(tc) => if tc.len() > 0 {
            Some(tc[0])
        } else {
            None
        },
        None => None,
    }
}

/// The argument text handed to the parser: an absent or empty argument
/// string is substituted with `{}`.
pub open spec fn effective_args(args: Option<Seq<char>>) -> Seq<char> {
    match args {
        None => "{}"@,
        Some(s) => if s.len() == 0 {
            "{}"@
        } else {
            s
        },
    }
}

/// The request body for the call that a phase re-issues.
pub open spec fn request_view(messages: Seq<OutMessageV>, choice: ToolChoice) -> RequestBodyV {
    RequestBodyV { model: MODEL_NAME@, messages, tool_choice: choice }
}

/// The assistant's tool-call message, echoed back in the second context.
pub open spec fn assistant_echo(m: ReplyMessageV) -> OutMessageV {
    OutMessageV {
        role: m.role,
        content: m.content,
        tool_call_id: None,
        name: None,
        tool_calls: m.tool_calls,
    }
}

/// The tool-result message: the payload under the originating call's id and
/// name.
pub open spec fn tool_result_message(call: ToolCallDataV, payload: Seq<char>) -> OutMessageV {
    OutMessageV {
        role: "tool"@,
        content: payload,
        tool_call_id: Some(call.id),
        name: Some(call.name),
        tool_calls: None,
    }
}

/// How the first response's message is dispatched: no tool call, or an
/// unrecognized tool name, answers with the content verbatim; the first
/// call of the declared tool goes on to argument parsing.
pub open spec fn dispatch_reply(messages: Seq<OutMessageV>, msg: ReplyMessageV) -> (
    OrchestratorV,
    ActionV,
) {
    match first_tool_call(msg) {
        Some(call) => if call.name == TOOL_NAME@ {
            let text = effective_args(call.arguments);
            (
                OrchestratorV { phase: PhaseV::AwaitArgs { call, assistant: msg, text }, messages },
                ActionV::ParseArgs { text },
            )
        } else {
            (
                OrchestratorV { phase: PhaseV::Finished { reply: msg.content }, messages },
                ActionV::Respond { reply: msg.content },
            )
        },
        None => (
            OrchestratorV { phase: PhaseV::Finished { reply: msg.content }, messages },
            ActionV::Respond { reply: msg.content },
        ),
    }
}

/// What one classified exchange does to a call that is in flight.  Success
/// with no choices fails fatally; success otherwise answers (second call)
/// or dispatches (first call); a transient failure backs off until the
/// attempts are spent, then fails with the last transient error; a fatal
/// failure fails at once.
pub open spec fn api_step(
    messages: Seq<OutMessageV>,
    ev: ApiEventV,
    second: bool,
    attempt: int,
) -> (OrchestratorV, ActionV) {
    let label = if second {
        "second chat/completions"@
    } else {
        "first chat/completions"@
    };
    match classify_view(label, ev) {
        OutcomeV::Accepted(choices) => {
            if choices.len() == 0 {
                let error = if second {
                    AppErrorV::ExternalService("No choices in second OpenRouter response"@)
                } else {
                    AppErrorV::ExternalService("No choices returned from OpenRouter"@)
                };
                (
                    OrchestratorV { phase: PhaseV::Failed { error }, messages },
                    ActionV::Fail { error },
                )
            } else if second {
                (
                    OrchestratorV {
                        phase: PhaseV::Finished { reply: choices[0].content },
                        messages,
                    },
                    ActionV::Respond { reply: choices[0].content },
                )
            } else {
                dispatch_reply(messages, choices[0])
            }
        },
        OutcomeV::Transient(error) => {
            if attempt < MAX_ATTEMPTS {
                let phase = if second {
                    PhaseV::PauseSecond { attempt: (attempt + 1) as u8 }
                } else {
                    PhaseV::PauseFirst { attempt: (attempt + 1) as u8 }
                };
                (
                    OrchestratorV { phase, messages },
                    ActionV::Pause { delay_ms: backoff_delay_ms(attempt) as u64 },
                )
            } else {
                (
                    OrchestratorV { phase: PhaseV::Failed { error }, messages },
                    ActionV::Fail { error },
                )
            }
        },
        OutcomeV::Broken(error) => (
            OrchestratorV { phase: PhaseV::Failed { error }, messages },
            ActionV::Fail { error },
        ),
    }
}

/// The whole transition relation: one event against one state.
pub open spec fn next_state(pre: OrchestratorV, ev: EventV) -> (OrchestratorV, ActionV) {
    match (pre.phase, ev) {
        (PhaseV::AwaitFirst { attempt }, EventV::Api(e)) => api_step(
            pre.messages,
            e,
            false,
            attempt as int,
        ),
        (PhaseV::PauseFirst { attempt }, EventV::Resumed) => (
            OrchestratorV { phase: PhaseV::AwaitFirst { attempt }, messages: pre.messages },
            ActionV::CallApi(request_view(pre.messages, ToolChoice::Auto)),
        ),
        (PhaseV::AwaitArgs { call, assistant, text }, EventV::Args(res)) => match res {
            Ok(args) => (
                OrchestratorV {
                    phase: PhaseV::AwaitSearch { call, assistant },
                    messages: pre.messages,
                },
                ActionV::RunSearch(search_params_view(args)),
            ),
            Err(_) => {
                let error = AppErrorV::ExternalServiceWithRaw {
                    message: "Assistant produced invalid tool arguments; please try again."@,
                    raw_response: text,
                };
                (
                    OrchestratorV { phase: PhaseV::Failed { error }, messages: pre.messages },
                    ActionV::Fail { error },
                )
            },
        },
        (PhaseV::AwaitSearch { call, assistant }, EventV::Search(res)) => match res {
            Ok(output) => {
                let payload = payload_json(output.definitions, output.total);
                let messages = pre.messages + seq![
                    assistant_echo(assistant),
                    tool_result_message(call, payload),
                ];
                (
                    OrchestratorV { phase: PhaseV::AwaitSecond { attempt: 1 }, messages },
                    ActionV::CallApi(request_view(messages, ToolChoice::NoTools)),
                )
            },
            Err(error) => (
                OrchestratorV { phase: PhaseV::Failed { error }, messages: pre.messages },
                ActionV::Fail { error },
            ),
        },
        (PhaseV::AwaitSecond { attempt }, EventV::Api(e)) => api_step(
            pre.messages,
            e,
            true,
            attempt as int,
        ),
        (PhaseV::PauseSecond { attempt }, EventV::Resumed) => (
            OrchestratorV { phase: PhaseV::AwaitSecond { attempt }, messages: pre.messages },
            ActionV::CallApi(request_view(pre.messages, ToolChoice::NoTools)),
        ),
        (phase, _) => (
            OrchestratorV { phase, messages: pre.messages },
            ActionV::Fail { error: AppErrorV::Internal(Seq::empty()) },
        ),
    }
}

/// A copy of a tool call, field by field.
fn dup_tool_call(c: &ToolCallData) -> (r: ToolCallData)
    ensures
        r.deep_view() == c.deep_view(),
{
    ToolCallData {
        id: c.id.clone(),
        kind: c.kind.clone(),
        name: c.name.clone(),
        arguments: match &c.arguments {
            Some(s) => Some(s.clone()),
            None => None,
        },
    }
}

/// A copy of an optional tool-call list, element by element.
fn dup_tool_calls(v: &Option<Vec<ToolCallData>>) -> (r: Option<Vec<ToolCallData>>)
    ensures
        r.deep_view() == v.deep_view(),
{
    match v {
        None => None,
        Some(tc) => {
            let mut out: Vec<ToolCallData> = Vec::new();
            let mut i: usize = 0;
            while i < tc.len()
                invariant
                    i <= tc@.len(),
                    out.deep_view() =~= tc.deep_view().take(i as int),
                decreases tc@.len() - i,
            {
                out.push(dup_tool_call(&tc[i]));
                i = i + 1;
                proof {
                    assert(tc.deep_view().take(i as int) =~= tc.deep_view().take(i - 1).push(
                        tc.deep_view()[i - 1],
                    ));
                }
            }
            proof {
                assert(tc.deep_view().take(tc@.len() as int) =~= tc.deep_view());
            }
            Some(out)
        },
    }
}

/// A copy of an outbound message.
fn dup_out_message(m: &OutMessage) -> (r: OutMessage)
    ensures
        r.deep_view() == m.deep_view(),
{
    OutMessage {
        role: m.role.clone(),
        content: m.content.clone(),
        tool_call_id: match &m.tool_call_id {
            Some(s) => Some(s.clone()),
            None => None,
        },
        name: match &m.name {
            Some(s) => Some(s.clone()),
            None => None,
        },
        tool_calls: dup_tool_calls(&m.tool_calls),
    }
}

/// A copy of a message list.
fn dup_out_messages(v: &Vec<OutMessage>) -> (r: Vec<OutMessage>)
    ensures
        r.deep_view() == v.deep_view(),
{
    let mut out: Vec<OutMessage> = Vec::new();
    let mut i: usize = 0;
    while i < v.len()
        invariant
            i <= v@.len(),
            out.deep_view() =~= v.deep_view().take(i as int),
        decreases v@.len() - i,
    {
        out.push(dup_out_message(&v[i]));
        i = i + 1;
        proof {
            assert(v.deep_view().take(i as int) =~= v.deep_view().take(i - 1).push(
                v.deep_view()[i - 1],
            ));
        }
    }
    proof {
        assert(v.deep_view().take(v@.len() as int) =~= v.deep_view());
    }
    out
}

/// A copy of an error, field by field.
fn dup_app_error(e: &AppError) -> (r: AppError)
    ensures
        r.deep_view() == e.deep_view(),
{
    match e {
        AppError::Database(s) => AppError::Database(s.clone()),
        AppError::Auth(s) => AppError::Auth(s.clone()),
        AppError::NotFound(s) => AppError::NotFound(s.clone()),
        AppError::ExternalService(s) => AppError::ExternalService(s.clone()),
        AppError::ExternalServiceWithRaw { message, raw_response } =>
            AppError::ExternalServiceWithRaw {
            message: message.clone(),
            raw_response: raw_response.clone(),
        },
        AppError::ExternalServiceRetryable { message, raw_response } =>
            AppError::ExternalServiceRetryable {
            message: message.clone(),
            raw_response: raw_response.clone(),
        },
        AppError::Validation(s) => AppError::Validation(s.clone()),
        AppError::BadRequest(s) => AppError::BadRequest(s.clone()),
        AppError::Unauthorized(s) => AppError::Unauthorized(s.clone()),
        AppError::Internal(s) => AppError::Internal(s.clone()),
    }
}

fn fail_with(messages: Vec<OutMessage>, error: AppError) -> (r: (Orchestrator, Action))
    ensures
        r.0.deep_view() == (OrchestratorV {
            phase: PhaseV::Failed { error: error.deep_view() },
            messages: messages.deep_view(),
        }),
        r.1.deep_view() == (ActionV::Fail { error: error.deep_view() }),
{
    let echo = dup_app_error(&error);
    (Orchestrator { phase: Phase::Failed { error }, messages }, Action::Fail { error: echo })
}

fn dispatch_reply_exec(messages: Vec<OutMessage>, msg: ReplyMessage) -> (r: (Orchestrator, Action))
    ensures
        r.0.deep_view() == dispatch_reply(messages.deep_view(), msg.deep_view()).0,
        r.1.deep_view() == dispatch_reply(messages.deep_view(), msg.deep_view()).1,
{
    let call_first: Option<ToolCallData> = match &msg.tool_calls {
        Some(tc) => if tc.len() > 0 {
            Some(dup_tool_call(&tc[0]))
        } else {
            None
        },
        None => None,
    };
    match call_first {
        Some(call) => {
            if crate::chars::str_eq(call.name.as_str(), TOOL_NAME) {
                let text: String = match &call.arguments {
                    None => String::from_str("{}"),
                    Some(s) => if s.unicode_len() == 0 {
                        String::from_str("{}")
                    } else {
                        s.clone()
                    },
                };
                let echo = text.clone();
                (
                    Orchestrator { phase: Phase::AwaitArgs { call, assistant: msg, text }, messages },
                    Action::ParseArgs { text: echo },
                )
            } else {
                let reply = msg.content.clone();
                (
                    Orchestrator { phase: Phase::Finished { reply: msg.content }, messages },
                    Action::Respond { reply },
                )
            }
        },
        None => {
            let reply = msg.content.clone();
            (
                Orchestrator { phase: Phase::Finished { reply: msg.content }, messages },
                Action::Respond { reply },
            )
        },
    }
}

fn api_step_exec(messages: Vec<OutMessage>, ev: ApiEvent, second: bool, attempt: u8) -> (r: (
    Orchestrator,
    Action,
))
    requires
        1 <= attempt <= MAX_ATTEMPTS,
    ensures
        r.0.deep_view() == api_step(messages.deep_view(), ev.deep_view(), second, attempt as int).0,
        r.1.deep_view() == api_step(messages.deep_view(), ev.deep_view(), second, attempt as int).1,
{
    let label = if second {
        "second chat/completions"
    } else {
        "first chat/completions"
    };
    let outcome = classify_response(label, ev);
    match outcome {
        Outcome::Accepted(mut choices) => {
            if choices.len() == 0 {
                let error = AppError::ExternalService(
                    String::from_str(
                        if second {
                            "No choices in second OpenRouter response"
                        } else {
                            "No choices returned from OpenRouter"
                        },
                    ),
                );
                fail_with(messages, error)
            } else if second {
                let first = choices.remove(0);
                let reply = first.content.clone();
                (
                    Orchestrator { phase: Phase::Finished { reply: first.content }, messages },
                    Action::Respond { reply },
                )
            } else {
                let first = choices.remove(0);
                dispatch_reply_exec(messages, first)
            }
        },
        Outcome::Transient(error) => {
            if attempt < MAX_ATTEMPTS {
                let delay_ms = backoff_for(attempt);
                let phase = if second {
                    Phase::PauseSecond { attempt: attempt + 1 }
                } else {
                    Phase::PauseFirst { attempt: attempt + 1 }
                };
                (Orchestrator { phase, messages }, Action::Pause { delay_ms })
            } else {
                fail_with(messages, error)
            }
        },
        Outcome::Broken(error) => fail_with(messages, error),
    }
}

impl Orchestrator {
    /// Builds the context for a request and issues the first call.
    pub fn start(request: &ChatRequest) -> (r: (Orchestrator, Action))
        ensures
            r.0.deep_view() == (OrchestratorV {
                phase: PhaseV::AwaitFirst { attempt: 1 },
                messages: context_view(request.deep_view()),
            }),
            r.1.deep_view() == ActionV::CallApi(
                request_view(context_view(request.deep_view()), ToolChoice::Auto),
            ),
            phase_wf(r.0.deep_view().phase),
    {
        let messages = build_context(request);
        let body_messages = dup_out_messages(&messages);
        (
            Orchestrator { phase: Phase::AwaitFirst { attempt: 1 }, messages },
            Action::CallApi(
                RequestBody {
                    model: String::from_str(MODEL_NAME),
                    messages: body_messages,
                    tool_choice: ToolChoice::Auto,
                },
            ),
        )
    }

    /// Consumes one event and decides the next action.
    pub fn step(self, event: Event) -> (r: (Orchestrator, Action))
        requires
            phase_wf(self.deep_view().phase),
            expects(self.deep_view().phase, event.deep_view()),
        ensures
            r.0.deep_view() == next_state(self.deep_view(), event.deep_view()).0,
            r.1.deep_view() == next_state(self.deep_view(), event.deep_view()).1,
            phase_wf(r.0.deep_view().phase),
    {
        let Orchestrator { phase, messages } = self;
        match (phase, event) {
            (Phase::AwaitFirst { attempt }, Event::Api(e)) => api_step_exec(
                messages,
                e,
                false,
                attempt,
            ),
            (Phase::PauseFirst { attempt }, Event::Resumed) => {
                let body_messages = dup_out_messages(&messages);
                (
                    Orchestrator { phase: Phase::AwaitFirst { attempt }, messages },
                    Action::CallApi(
                        RequestBody {
                            model: String::from_str(MODEL_NAME),
                            messages: body_messages,
                            tool_choice: ToolChoice::Auto,
                        },
                    ),
                )
            },
            (Phase::AwaitArgs { call, assistant, text }, Event::Args(res)) => match res {
                Ok(args) => (
                    Orchestrator { phase: Phase::AwaitSearch { call, assistant }, messages },
                    Action::RunSearch(search_params(args)),
                ),
                Err(_) => {
                    let error = AppError::ExternalServiceWithRaw {
                        message: String::from_str(
                            "Assistant produced invalid tool arguments; please try again.",
                        ),
                        raw_response: text,
                    };
                    fail_with(messages, error)
                },
            },
            (Phase::AwaitSearch { call, assistant }, Event::Search(res)) => match res {
                Ok(output) => {
                    let payload = tool_payload(&output);
                    let assistant_out = OutMessage {
                        role: assistant.role,
                        content: assistant.content,
                        tool_call_id: None,
                        name: None,
                        tool_calls: assistant.tool_calls,
                    };
                    let tool_out = OutMessage {
                        role: String::from_str("tool"),
                        content: payload,
                        tool_call_id: Some(call.id),
                        name: Some(call.name),
                        tool_calls: None,
                    };
                    let ghost pre_messages = messages.deep_view();
                    let mut messages = messages;
                    let ghost a_view = assistant_out.deep_view();
                    let ghost t_view = tool_out.deep_view();
                    messages.push(assistant_out);
                    messages.push(tool_out);
                    proof {
                        assert(messages.deep_view() =~= pre_messages + seq![a_view, t_view]);
                    }
                    let body_messages = dup_out_messages(&messages);
                    (
                        Orchestrator { phase: Phase::AwaitSecond { attempt: 1 }, messages },
                        Action::CallApi(
                            RequestBody {
                                model: String::from_str(MODEL_NAME),
                                messages: body_messages,
                                tool_choice: ToolChoice::NoTools,
                            },
                        ),
                    )
                },
                Err(error) => fail_with(messages, error),
            },
            (Phase::AwaitSecond { attempt }, Event::Api(e)) => api_step_exec(
                messages,
                e,
                true,
                attempt,
            ),
            (Phase::PauseSecond { attempt }, Event::Resumed) => {
                let body_messages = dup_out_messages(&messages);
                (
                    Orchestrator { phase: Phase::AwaitSecond { attempt }, messages },
                    Action::CallApi(
                        RequestBody {
                            model: String::from_str(MODEL_NAME),
                            messages: body_messages,
                            tool_choice: ToolChoice::NoTools,
                        },
                    ),
                )
            },
            (phase, _) => (
                Orchestrator { phase, messages },
                Action::Fail { error: AppError::Internal(String::new()) },
            ),
        }
    }
}

/// A first response that carries no tool call, or whose first tool call
/// names an unrecognized tool, is answered with its content verbatim, and
/// the search tool is not invoked.
pub proof fn lemma_no_tool_call_replies_verbatim(
    pre: OrchestratorV,
    e: ApiEventV,
    attempt: u8,
    choices: Seq<ReplyMessageV>,
)
    requires
        pre.phase == (PhaseV::AwaitFirst { attempt }),
        classify_view("first chat/completions"@, e) == OutcomeV::Accepted(choices),
        choices.len() > 0,
        match first_tool_call(choices[0]) {
            Some(c) => c.name != TOOL_NAME@,
            None => true,
        },
    ensures
        next_state(pre, EventV::Api(e)).1 == (ActionV::Respond { reply: choices[0].content }),
        next_state(pre, EventV::Api(e)).0.phase == (PhaseV::Finished {
            reply: choices[0].content,
        }),
        !(next_state(pre, EventV::Api(e)).1 matches ActionV::RunSearch(_)),
{
}

/// Two transient failures are retried after 500 ms and 1000 ms of backoff —
/// 1500 ms in all — and a success on the third attempt is delivered: three
/// attempts, no more.
pub proof fn lemma_retry_then_success(
    s0: OrchestratorV,
    e1: ApiEventV,
    e2: ApiEventV,
    e3: ApiEventV,
    choices: Seq<ReplyMessageV>,
)
    requires
        s0.phase == (PhaseV::AwaitFirst { attempt: 1 }),
        classify_view("first chat/completions"@, e1) matches OutcomeV::Transient(_),
        classify_view("first chat/completions"@, e2) matches OutcomeV::Transient(_),
        classify_view("first chat/completions"@, e3) == OutcomeV::Accepted(choices),
        choices.len() > 0,
    ensures
        ({
            let (s1, a1) = next_state(s0, EventV::Api(e1));
            let (s2, a2) = next_state(s1, EventV::Resumed);
            let (s3, a3) = next_state(s2, EventV::Api(e2));
            let (s4, a4) = next_state(s3, EventV::Resumed);
            let (s5, a5) = next_state(s4, EventV::Api(e3));
            &&& a1 == (ActionV::Pause { delay_ms: 500u64 })
            &&& s1.phase == (PhaseV::PauseFirst { attempt: 2 })
            &&& a2 == ActionV::CallApi(request_view(s0.messages, ToolChoice::Auto))
            &&& s2.phase == (PhaseV::AwaitFirst { attempt: 2 })
            &&& a3 == (ActionV::Pause { delay_ms: 1000u64 })
            &&& s3.phase == (PhaseV::PauseFirst { attempt: 3 })
            &&& a4 == ActionV::CallApi(request_view(s0.messages, ToolChoice::Auto))
            &&& s4.phase == (PhaseV::AwaitFirst { attempt: 3 })
            &&& !(a5 matches ActionV::Pause { .. })
            &&& !(a5 matches ActionV::Fail { .. })
        }),
{
    assert(pow2n(0) == 1);
    assert(pow2n(1) == 2);
    let (s4, a4) = next_state(
        next_state(
            next_state(next_state(s0, EventV::Api(e1)).0, EventV::Resumed).0,
            EventV::Api(e2),
        ).0,
        EventV::Resumed,
    );
    assert(s4.phase == (PhaseV::AwaitFirst { attempt: 3 }));
}

/// Three transient failures exhaust the attempts: the third is not retried,
/// and the last transient error is surfaced, still tagged transient.
pub proof fn lemma_retry_exhaustion(
    s0: OrchestratorV,
    e1: ApiEventV,
    e2: ApiEventV,
    e3: ApiEventV,
)
    requires
        s0.phase == (PhaseV::AwaitFirst { attempt: 1 }),
        classify_view("first chat/completions"@, e1) matches OutcomeV::Transient(_),
        classify_view("first chat/completions"@, e2) matches OutcomeV::Transient(_),
        classify_view("first chat/completions"@, e3) matches OutcomeV::Transient(_),
    ensures
        ({
            let (s1, a1) = next_state(s0, EventV::Api(e1));
            let (s2, a2) = next_state(s1, EventV::Resumed);
            let (s3, a3) = next_state(s2, EventV::Api(e2));
            let (s4, a4) = next_state(s3, EventV::Resumed);
            let (s5, a5) = next_state(s4, EventV::Api(e3));
            &&& classify_view("first chat/completions"@, e3) matches OutcomeV::Transient(err)
                ==> a5 == (ActionV::Fail { error: err }) && s5.phase == (PhaseV::Failed {
                error: err,
            })
            &&& classify_view("first chat/completions"@, e3) matches OutcomeV::Transient(err)
                ==> err matches AppErrorV::ExternalServiceRetryable { .. }
        }),
{
    assert(pow2n(0) == 1);
    assert(pow2n(1) == 2);
    let err = choose|err: AppErrorV|
        classify_view("first chat/completions"@, e3) == OutcomeV::Transient(err);
    assert(classify_view("first chat/completions"@, e3) == OutcomeV::Transient(err));
}

/// The search tool runs only out of the argument-parsing phase, which only
/// the first call's dispatch enters: at most one tool round-trip happens
/// per request.
pub proof fn lemma_single_tool_round(s: OrchestratorV, ev: EventV)
    ensures
        next_state(s, ev).1 matches ActionV::RunSearch(_) ==> s.phase matches PhaseV::AwaitArgs {
            ..
        },
        next_state(s, ev).0.phase matches PhaseV::AwaitArgs { .. } ==> (s.phase matches
            PhaseV::AwaitFirst { .. } || s.phase matches PhaseV::AwaitArgs { .. }),
{
}

/// An absent or empty tool-argument string behaves exactly as the literal
/// `{}`: the same parse request is issued, and the recorded raw text — the
/// one a later argument error would carry — is `{}` in both cases.
pub proof fn lemma_empty_args_like_braces(
    messages: Seq<OutMessageV>,
    msg1: ReplyMessageV,
    call1: ToolCallDataV,
    msg2: ReplyMessageV,
    call2: ToolCallDataV,
)
    requires
        first_tool_call(msg1) == Some(call1),
        first_tool_call(msg2) == Some(call2),
        call1.name == TOOL_NAME@,
        call2.name == TOOL_NAME@,
        call1.arguments is None || call1.arguments == Some(Seq::<char>::empty()),
        call2.arguments == Some("{}"@),
    ensures
        dispatch_reply(messages, msg1).1 == dispatch_reply(messages, msg2).1,
        dispatch_reply(messages, msg1).1 == (ActionV::ParseArgs { text: "{}"@ }),
        dispatch_reply(messages, msg1).0.phase matches PhaseV::AwaitArgs { text, .. } && text
            == "{}"@,
        dispatch_reply(messages, msg2).0.phase matches PhaseV::AwaitArgs { text, .. } && text
            == "{}"@,
{
    reveal_strlit("{}");
    assert("{}"@.len() == 2);
    assert(effective_args(call1.arguments) == "{}"@);
    assert(effective_args(call2.arguments) == "{}"@);
}

} // verus!

