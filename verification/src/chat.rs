//! Conversation data model and the pure parts of the chat protocol: context
//! building, role normalization, the declared search tool, and the
//! classification of chat-completion outcomes into success, transient
//! failure, and fatal failure.
use vstd::prelude::*;
use crate::error::{AppError, AppErrorV};
use crate::numfmt::dec_digits;

verus! {

/// One message of the caller-supplied conversation history.
#[derive(Debug, Clone, PartialEq, Eq)]
pub struct ChatMessage {
    pub role: String,
    pub content: String,
}

pub struct ChatMessageV {
    pub role: Seq<char>,
    pub content: Seq<char>,
}

impl DeepView for ChatMessage {
    type V = ChatMessageV;

    open spec fn deep_view(&self) -> ChatMessageV {
        ChatMessageV { role: self.role@, content: self.content@ }
    }
}

/// A chat request: the history and an optional locale hint.
#[derive(Debug, Clone, PartialEq, Eq)]
pub struct ChatRequest {
    pub messages: Vec<ChatMessage>,
    pub locale: Option<String>,
}

pub struct ChatRequestV {
    pub messages: Seq<ChatMessageV>,
    pub locale: Option<Seq<char>>,
}

impl DeepView for ChatRequest {
    type V = ChatRequestV;

    open spec fn deep_view(&self) -> ChatRequestV {
        ChatRequestV { messages: self.messages.deep_view(), locale: self.locale.deep_view() }
    }
}

/// The reply handed back to the caller.
#[derive(Debug, Clone, PartialEq, Eq)]
pub struct ChatResponse {
    pub reply: String,
}

impl DeepView for ChatResponse {
    type V = Seq<char>;

    open spec fn deep_view(&self) -> Seq<char> {
        self.reply@
    }
}

/// One tool invocation as the provider reports it: id, wire type, function
/// name, and the raw argument text (possibly absent).
#[derive(Debug, Clone, PartialEq, Eq)]
pub struct ToolCallData {
    pub id: String,
    pub kind: String,
    pub name: String,
    pub arguments: Option<String>,
}

pub struct ToolCallDataV {
    pub id: Seq<char>,
    pub kind: Seq<char>,
    pub name: Seq<char>,
    pub arguments: Option<Seq<char>>,
}

impl DeepView for ToolCallData {
    type V = ToolCallDataV;

    open spec fn deep_view(&self) -> ToolCallDataV {
        ToolCallDataV {
            id: self.id@,
            kind: self.kind@,
            name: self.name@,
            arguments: self.arguments.deep_view(),
        }
    }
}

/// One message of an outbound chat-completion request.
#[derive(Debug, Clone, PartialEq, Eq)]
pub struct OutMessage {
    pub role: String,
    pub content: String,
    pub tool_call_id: Option<String>,
    pub name: Option<String>,
    pub tool_calls: Option<Vec<ToolCallData>>,
}

pub struct OutMessageV {
    pub role: Seq<char>,
    pub content: Seq<char>,
    pub tool_call_id: Option<Seq<char>>,
    pub name: Option<Seq<char>>,
    pub tool_calls: Option<Seq<ToolCallDataV>>,
}

impl DeepView for OutMessage {
    type V = OutMessageV;

    open spec fn deep_view(&self) -> OutMessageV {
        OutMessageV {
            role: self.role@,
            content: self.content@,
            tool_call_id: self.tool_call_id.deep_view(),
            name: self.name.deep_view(),
            tool_calls: self.tool_calls.deep_view(),
        }
    }
}

/// The message of one choice of a chat-completion response.
#[derive(Debug, Clone, PartialEq, Eq)]
pub struct ReplyMessage {
    pub role: String,
    pub content: String,
    pub tool_calls: Option<Vec<ToolCallData>>,
}

pub struct ReplyMessageV {
    pub role: Seq<char>,
    pub content: Seq<char>,
    pub tool_calls: Option<Seq<ToolCallDataV>>,
}

impl DeepView for ReplyMessage {
    type V = ReplyMessageV;

    open spec fn deep_view(&self) -> ReplyMessageV {
        ReplyMessageV {
            role: self.role@,
            content: self.content@,
            tool_calls: self.tool_calls.deep_view(),
        }
    }
}

/// What became of a chat-completion response body once the boundary tried to
/// read it as the expected schema.
#[derive(Debug, Clone, PartialEq, Eq)]
pub enum BodyParse {
    /// The body parsed to the expected schema: the message of each choice.
    Completion(Vec<ReplyMessage>),
    /// The body parsed to an upstream error envelope instead; `parse_err`
    /// is the schema parser's complaint, `raw` the body text.
    ErrorEnvelope { message: String, code: Option<u16>, parse_err: String, raw: String },
    /// The body parsed to neither shape.
    Unparseable { parse_err: String, raw: String },
    /// The body could not be read at all.
    ReadFailed { err: String },
}

pub enum BodyParseV {
    Completion(Seq<ReplyMessageV>),
    ErrorEnvelope { message: Seq<char>, code: Option<u16>, parse_err: Seq<char>, raw: Seq<char> },
    Unparseable { parse_err: Seq<char>, raw: Seq<char> },
    ReadFailed { err: Seq<char> },
}

impl DeepView for BodyParse {
    type V = BodyParseV;

    open spec fn deep_view(&self) -> BodyParseV {
        match self {
            BodyParse::Completion(choices) => BodyParseV::Completion(choices.deep_view()),
            BodyParse::ErrorEnvelope { message, code, parse_err, raw } =>
                BodyParseV::ErrorEnvelope {
                message: message@,
                code: *code,
                parse_err: parse_err@,
                raw: raw@,
            },
            BodyParse::Unparseable { parse_err, raw } => BodyParseV::Unparseable {
                parse_err: parse_err@,
                raw: raw@,
            },
            BodyParse::ReadFailed { err } => BodyParseV::ReadFailed { err: err@ },
        }
    }
}

/// One HTTP exchange with the chat-completion provider, as the boundary saw
/// it: status code, its reason phrase, and the body's fate.
#[derive(Debug, Clone, PartialEq, Eq)]
pub struct ApiEvent {
    pub status: u16,
    pub reason: String,
    pub body: BodyParse,
}

pub struct ApiEventV {
    pub status: u16,
    pub reason: Seq<char>,
    pub body: BodyParseV,
}

impl DeepView for ApiEvent {
    type V = ApiEventV;

    open spec fn deep_view(&self) -> ApiEventV {
        ApiEventV { status: self.status, reason: self.reason@, body: self.body.deep_view() }
    }
}

/// A classified exchange: usable choices, a transient failure worth a retry,
/// or a fatal failure.
#[derive(Debug, Clone, PartialEq, Eq)]
pub enum Outcome {
    Accepted(Vec<ReplyMessage>),
    Transient(AppError),
    Broken(AppError),
}

pub enum OutcomeV {
    Accepted(Seq<ReplyMessageV>),
    Transient(AppErrorV),
    Broken(AppErrorV),
}

impl DeepView for Outcome {
    type V = OutcomeV;

    open spec fn deep_view(&self) -> OutcomeV {
        match self {
            Outcome::Accepted(choices) => OutcomeV::Accepted(choices.deep_view()),
            Outcome::Transient(e) => OutcomeV::Transient(e.deep_view()),
            Outcome::Broken(e) => OutcomeV::Broken(e.deep_view()),
        }
    }
}

/// The fixed policy text of the system message.
pub const SYSTEM_PROMPT_BASE: &'static str = "You are a dictionary assistant. You must strictly rely on semantic search results.\n- For every user query about words, concepts, or meanings: you MUST call the tool `semantic_search` first. Do not answer from general knowledge.\n- Base your reply ONLY on the definitions returned by the tool. Quote or paraphrase from those results; do not invent words, glosses, or definitions.\n- Do not make up examples. Only use words, glosses, and sentences from the semantic search results.\n- If the search returns no or few results, say so and suggest rephrasing the query; do not make up answers.\n- You have access only to the tool `semantic_search`. Use it with a natural-language query (e.g. in English) to find relevant definitions.\n- Format your reply in valid, simple Markdown: use **bold**, lists. use plain text or markdown lists instead of markdown tables.";

/// The one declared tool's name.
pub const TOOL_NAME: &'static str = "semantic_search";

/// The model requested from the provider.
pub const MODEL_NAME: &'static str = "openrouter/free";

/// The system prompt: the fixed policy text, with a locale hint appended
/// when a non-empty locale is supplied.
pub open spec fn system_prompt_view(locale: Option<Seq<char>>) -> Seq<char> {
    match locale {
        Some(l) => if l.len() > 0 {
            SYSTEM_PROMPT_BASE@ + "\nPrefer to explain things in locale `"@ + l
                + "` where appropriate."@
        } else {
            SYSTEM_PROMPT_BASE@
        },
        None => SYSTEM_PROMPT_BASE@,
    }
}

/// Builds the system prompt for the given locale hint.
pub fn system_prompt(locale: Option<&str>) -> (r: String)
    ensures
        r@ == system_prompt_view(match locale {
            Some(l) => Some(l@),
            None => None,
        }),
{
    let mut out: Vec<char> = Vec::new();
    crate::chars::push_chars(&mut out, SYSTEM_PROMPT_BASE);
    match locale {
        Some(l) => {
            if l.unicode_len() > 0 {
                crate::chars::push_chars(&mut out, "\nPrefer to explain things in locale `");
                crate::chars::push_chars(&mut out, l);
                crate::chars::push_chars(&mut out, "` where appropriate.");
            }
        },
        None => {},
    }
    proof {
        assert(out@ =~= system_prompt_view(match locale {
            Some(l) => Some(l@),
            None => None,
        }));
    }
    crate::chars::chars_to_string(&out)
}

/// The normalized provider role: known roles pass through, anything else
/// becomes `user`.
pub open spec fn normalized_role(role: Seq<char>) -> Seq<char> {
    if role == "user"@ || role == "assistant"@ || role == "system"@ {
        role
    } else {
        "user"@
    }
}

/// Maps a history role to the role sent to the provider; an unrecognized
/// role is mapped to `user`, never rejected.
pub fn to_openrouter_role(role: &str) -> (r: String)
    ensures
        r@ == normalized_role(role@),
{
    if crate::chars::str_eq(role, "user") || crate::chars::str_eq(role, "assistant")
        || crate::chars::str_eq(role, "system") {
        role.to_owned()
    } else {
        String::from_str("user")
    }
}

/// The outbound form of one history message.
pub open spec fn mapped_message(m: ChatMessageV) -> OutMessageV {
    OutMessageV {
        role: normalized_role(m.role),
        content: m.content,
        tool_call_id: None,
        name: None,
        tool_calls: None,
    }
}

/// Maps the whole history to outbound messages, in order, roles normalized.
pub fn map_chat_messages(messages: &Vec<ChatMessage>) -> (r: Vec<OutMessage>)
    ensures
        r.deep_view() == messages.deep_view().map_values(|m: ChatMessageV| mapped_message(m)),
{
    let mut r: Vec<OutMessage> = Vec::new();
    let mut i: usize = 0;
    while i < messages.len()
        invariant
            i <= messages@.len(),
            r.deep_view() =~= messages.deep_view().take(i as int).map_values(
                |m: ChatMessageV| mapped_message(m),
            ),
        decreases messages@.len() - i,
    {
        let m = &messages[i];
        r.push(
            OutMessage {
                role: to_openrouter_role(m.role.as_str()),
                content: m.content.clone(),
                tool_call_id: None,
                name: None,
                tool_calls: None,
            },
        );
        i = i + 1;
        proof {
            assert(messages.deep_view().take(i as int).map_values(
                |m: ChatMessageV| mapped_message(m),
            ) =~= messages.deep_view().take(i - 1).map_values(
                |m: ChatMessageV| mapped_message(m),
            ).push(mapped_message(messages.deep_view()[i - 1])));
        }
    }
    proof {
        assert(messages.deep_view().take(messages@.len() as int) =~= messages.deep_view());
    }
    r
}

/// The full outbound context: the system message first, then the normalized
/// history.
pub open spec fn context_view(req: ChatRequestV) -> Seq<OutMessageV> {
    seq![
        OutMessageV {
            role: "system"@,
            content: system_prompt_view(req.locale),
            tool_call_id: None,
            name: None,
            tool_calls: None,
        },
    ] + req.messages.map_values(|m: ChatMessageV| mapped_message(m))
}

/// Builds the outbound context for a request.
pub fn build_context(request: &ChatRequest) -> (r: Vec<OutMessage>)
    ensures
        r.deep_view() == context_view(request.deep_view()),
{
    let mut r: Vec<OutMessage> = Vec::new();
    let prompt = system_prompt(
        match &request.locale {
            Some(l) => Some(l.as_str()),
            None => None,
        },
    );
    r.push(
        OutMessage {
            role: String::from_str("system"),
            content: prompt,
            tool_call_id: None,
            name: None,
            tool_calls: None,
        },
    );
    let mut mapped = map_chat_messages(&request.messages);
    let ghost head = r.deep_view();
    let ghost tail = mapped.deep_view();
    r.append(&mut mapped);
    proof {
        assert(r.deep_view() =~= head + tail);
        assert(r.deep_view() =~= context_view(request.deep_view()));
    }
    r
}

/// The text of a status-line failure message.
pub open spec fn status_message(label: Seq<char>, status: u16, reason: Seq<char>) -> Seq<char> {
    label + " returned "@ + dec_digits(status as nat) + " "@ + reason
}

/// The text of a parse-failure message.
pub open spec fn invalid_response_message(label: Seq<char>, parse_err: Seq<char>) -> Seq<char> {
    "Invalid "@ + label + " response: "@ + parse_err
}

/// The raw body text an exchange carries for diagnosis.
pub open spec fn raw_of(body: BodyParseV) -> Seq<char> {
    match body {
        BodyParseV::Completion(_) => Seq::empty(),
        BodyParseV::ErrorEnvelope { raw, .. } => raw,
        BodyParseV::Unparseable { raw, .. } => raw,
        BodyParseV::ReadFailed { .. } => "(failed to read body)"@,
    }
}

/// The classification of one exchange.  A 2xx with a parsed completion is
/// accepted; a 5xx, an upstream error envelope whose code is at least 500 or
/// absent, and an unparseable body are transient; everything else is fatal.
pub open spec fn classify_view(label: Seq<char>, ev: ApiEventV) -> OutcomeV {
    if 200 <= ev.status < 300 {
        match ev.body {
            BodyParseV::Completion(choices) => OutcomeV::Accepted(choices),
            BodyParseV::ErrorEnvelope { message, code, parse_err, raw } => {
                let transient = match code {
                    Some(c) => c >= 500,
                    None => true,
                };
                if transient {
                    let msg = if message.len() == 0 {
                        invalid_response_message(label, parse_err)
                    } else {
                        label + ": "@ + message
                    };
                    OutcomeV::Transient(
                        AppErrorV::ExternalServiceRetryable { message: msg, raw_response: raw },
                    )
                } else {
                    OutcomeV::Broken(
                        AppErrorV::ExternalServiceWithRaw {
                            message: invalid_response_message(label, parse_err),
                            raw_response: raw,
                        },
                    )
                }
            },
            BodyParseV::Unparseable { parse_err, raw } => OutcomeV::Transient(
                AppErrorV::ExternalServiceRetryable {
                    message: invalid_response_message(label, parse_err),
                    raw_response: raw,
                },
            ),
            BodyParseV::ReadFailed { err } => OutcomeV::Broken(
                AppErrorV::ExternalService(
                    "Failed to read "@ + label + " response body: "@ + err,
                ),
            ),
        }
    } else {
        let msg = status_message(label, ev.status, ev.reason);
        if 500 <= ev.status < 600 {
            OutcomeV::Transient(
                AppErrorV::ExternalServiceRetryable {
                    message: msg,
                    raw_response: raw_of(ev.body),
                },
            )
        } else {
            OutcomeV::Broken(
                AppErrorV::ExternalServiceWithRaw { message: msg, raw_response: raw_of(ev.body) },
            )
        }
    }
}

fn raw_of_exec(body: &BodyParse) -> (r: String)
    ensures
        r@ == raw_of(body.deep_view()),
{
    match body {
        BodyParse::Completion(_) => String::new(),
        BodyParse::ErrorEnvelope { raw, .. } => raw.clone(),
        BodyParse::Unparseable { raw, .. } => raw.clone(),
        BodyParse::ReadFailed { .. } => String::from_str("(failed to read body)"),
    }
}

fn invalid_response_message_exec(label: &str, parse_err: &str) -> (r: String)
    ensures
        r@ == invalid_response_message(label@, parse_err@),
{
    let mut out: Vec<char> = Vec::new();
    crate::chars::push_chars(&mut out, "Invalid ");
    crate::chars::push_chars(&mut out, label);
    crate::chars::push_chars(&mut out, " response: ");
    crate::chars::push_chars(&mut out, parse_err);
    proof {
        assert(out@ =~= invalid_response_message(label@, parse_err@));
    }
    crate::chars::chars_to_string(&out)
}

/// Classifies one exchange with the provider under the given call label.
pub fn classify_response(label: &str, ev: ApiEvent) -> (r: Outcome)
    ensures
        r.deep_view() == classify_view(label@, ev.deep_view()),
{
    if 200 <= ev.status && ev.status < 300 {
        match ev.body {
            BodyParse::Completion(choices) => Outcome::Accepted(choices),
            BodyParse::ErrorEnvelope { message, code, parse_err, raw } => {
                let transient = match code {
                    Some(c) => c >= 500,
                    None => true,
                };
                if transient {
                    let msg = if message.unicode_len() == 0 {
                        invalid_response_message_exec(label, parse_err.as_str())
                    } else {
                        let mut out: Vec<char> = Vec::new();
                        crate::chars::push_chars(&mut out, label);
                        crate::chars::push_chars(&mut out, ": ");
                        crate::chars::push_chars(&mut out, message.as_str());
                        proof {
                            assert(out@ =~= label@ + ": "@ + message@);
                        }
                        crate::chars::chars_to_string(&out)
                    };
                    Outcome::Transient(
                        AppError::ExternalServiceRetryable { message: msg, raw_response: raw },
                    )
                } else {
                    Outcome::Broken(
                        AppError::ExternalServiceWithRaw {
                            message: invalid_response_message_exec(label, parse_err.as_str()),
                            raw_response: raw,
                        },
                    )
                }
            },
            BodyParse::Unparseable { parse_err, raw } => Outcome::Transient(
                AppError::ExternalServiceRetryable {
                    message: invalid_response_message_exec(label, parse_err.as_str()),
                    raw_response: raw,
                },
            ),
            BodyParse::ReadFailed { err } => {
                let mut out: Vec<char> = Vec::new();
                crate::chars::push_chars(&mut out, "Failed to read ");
                crate::chars::push_chars(&mut out, label);
                crate::chars::push_chars(&mut out, " response body: ");
                crate::chars::push_chars(&mut out, err.as_str());
                proof {
                    assert(out@ =~= "Failed to read "@ + label@ + " response body: "@ + err@);
                }
                Outcome::Broken(AppError::ExternalService(crate::chars::chars_to_string(&out)))
            },
        }
    } else {
        let mut out: Vec<char> = Vec::new();
        crate::chars::push_chars(&mut out, label);
        crate::chars::push_chars(&mut out, " returned ");
        crate::numfmt::push_dec_u64(&mut out, ev.status as u64);
        crate::chars::push_chars(&mut out, " ");
        crate::chars::push_chars(&mut out, ev.reason.as_str());
        proof {
            assert(out@ =~= status_message(label@, ev.status, ev.reason@));
        }
        let msg = crate::chars::chars_to_string(&out);
        let raw = raw_of_exec(&ev.body);
        if 500 <= ev.status && ev.status < 600 {
            Outcome::Transient(
                AppError::ExternalServiceRetryable { message: msg, raw_response: raw },
            )
        } else {
            Outcome::Broken(AppError::ExternalServiceWithRaw { message: msg, raw_response: raw })
        }
    }
}

/// The declared tool's description shown to the model.
pub const TOOL_DESCRIPTION: &'static str = "Semantic search over dictionary definitions. Call this for every user question about words or concepts; results are the only source you may use for words and definitions.";

/// The JSON Schema of the declared tool's parameters.
pub const TOOL_PARAMETERS_JSON: &'static str = "{\"type\":\"object\",\"properties\":{\"query\":{\"type\":\"string\",\"description\":\"Natural-language concept to search for (typically in English).\"},\"limit\":{\"type\":\"integer\",\"minimum\":1,\"maximum\":50,\"default\":10,\"description\":\"Maximum number of results to return.\"},\"languages\":{\"type\":\"array\",\"items\":{\"type\":\"integer\"},\"description\":\"Optional list of language IDs to restrict definitions to.\"},\"source_langid\":{\"type\":\"integer\",\"description\":\"Optional source language ID of the word.\"}},\"required\":[\"query\"]}";

/// The one declared tool: name, description, and its parameter schema as
/// JSON text.
#[derive(Debug, Clone, PartialEq, Eq)]
pub struct ToolDefinition {
    pub name: String,
    pub description: String,
    pub parameters_json: String,
}

pub struct ToolDefinitionV {
    pub name: Seq<char>,
    pub description: Seq<char>,
    pub parameters_json: Seq<char>,
}

impl DeepView for ToolDefinition {
    type V = ToolDefinitionV;

    open spec fn deep_view(&self) -> ToolDefinitionV {
        ToolDefinitionV {
            name: self.name@,
            description: self.description@,
            parameters_json: self.parameters_json@,
        }
    }
}

/// Builds the declared search tool.
pub fn search_tool() -> (r: ToolDefinition)
    ensures
        r.deep_view() == (ToolDefinitionV {
            name: TOOL_NAME@,
            description: TOOL_DESCRIPTION@,
            parameters_json: TOOL_PARAMETERS_JSON@,
        }),
{
    ToolDefinition {
        name: String::from_str(TOOL_NAME),
        description: String::from_str(TOOL_DESCRIPTION),
        parameters_json: String::from_str(TOOL_PARAMETERS_JSON),
    }
}

} // verus!

