use lexichat::chat::{ApiEvent, BodyParse, ChatMessage, ChatRequest, ReplyMessage, ToolCallData};
use lexichat::error::AppError;
use lexichat::orchestrator::{Action, Event, Orchestrator, ToolChoice};
use lexichat::search::{DefinitionDetail, SearchOutput, ToolArgs};

fn request(content: &str) -> ChatRequest {
    ChatRequest {
        messages: vec![ChatMessage { role: "user".to_string(), content: content.to_string() }],
        locale: None,
    }
}

fn ok_reply(content: &str) -> ApiEvent {
    ApiEvent {
        status: 200,
        reason: "OK".to_string(),
        body: BodyParse::Completion(vec![ReplyMessage {
            role: "assistant".to_string(),
            content: content.to_string(),
            tool_calls: None,
        }]),
    }
}

fn tool_call_reply(name: &str, arguments: Option<&str>) -> ApiEvent {
    ApiEvent {
        status: 200,
        reason: "OK".to_string(),
        body: BodyParse::Completion(vec![ReplyMessage {
            role: "assistant".to_string(),
            content: String::new(),
            tool_calls: Some(vec![ToolCallData {
                id: "call_1".to_string(),
                kind: "function".to_string(),
                name: name.to_string(),
                arguments: arguments.map(|s| s.to_string()),
            }]),
        }]),
    }
}

fn server_error() -> ApiEvent {
    ApiEvent {
        status: 503,
        reason: "Service Unavailable".to_string(),
        body: BodyParse::Unparseable { parse_err: String::new(), raw: "overloaded".to_string() },
    }
}

fn row(word: &str, definition: &str) -> DefinitionDetail {
    DefinitionDetail {
        valsiword: word.to_string(),
        definition: definition.to_string(),
        notes: None,
        langrealname: "English".to_string(),
        score_text: "1.5".to_string(),
        similarity_text: "0.93".to_string(),
        selmaho: None,
        jargon: None,
    }
}

#[test]
fn start_builds_system_message_then_history() {
    let (_orch, action) = Orchestrator::start(&request("word for cat"));
    match action {
        Action::CallApi(body) => {
            assert_eq!(body.model, "openrouter/free");
            assert_eq!(body.tool_choice, ToolChoice::Auto);
            assert_eq!(body.messages.len(), 2);
            assert_eq!(body.messages[0].role, "system");
            assert_eq!(body.messages[1].role, "user");
            assert_eq!(body.messages[1].content, "word for cat");
        }
        other => panic!("expected the first call, got {:?}", other),
    }
}

#[test]
fn start_normalizes_unknown_roles() {
    let req = ChatRequest {
        messages: vec![ChatMessage {
            role: "narrator".to_string(),
            content: "hello".to_string(),
        }],
        locale: None,
    };
    let (_orch, action) = Orchestrator::start(&req);
    match action {
        Action::CallApi(body) => {
            assert_eq!(body.messages[1].role, "user");
            assert_eq!(body.messages[1].content, "hello");
        }
        other => panic!("expected the first call, got {:?}", other),
    }
}

#[test]
fn no_tool_call_returns_content_verbatim() {
    let (orch, _) = Orchestrator::start(&request("hi"));
    let (_orch, action) = orch.step(Event::Api(ok_reply("plain answer")));
    match action {
        Action::Respond { reply } => assert_eq!(reply, "plain answer"),
        other => panic!("expected a verbatim reply, got {:?}", other),
    }
}

#[test]
fn unrecognized_tool_name_returns_content_verbatim() {
    let (orch, _) = Orchestrator::start(&request("hi"));
    let mut ev = tool_call_reply("other_tool", Some("{}"));
    if let BodyParse::Completion(choices) = &mut ev.body {
        choices[0].content = "fallback text".to_string();
    }
    let (_orch, action) = orch.step(Event::Api(ev));
    match action {
        Action::Respond { reply } => assert_eq!(reply, "fallback text"),
        other => panic!("expected a verbatim reply, got {:?}", other),
    }
}

#[test]
fn retry_sequence_two_failures_then_success() {
    let (orch, _) = Orchestrator::start(&request("hi"));
    let (orch, a1) = orch.step(Event::Api(server_error()));
    assert!(matches!(a1, Action::Pause { delay_ms: 500 }));
    let (orch, a2) = orch.step(Event::Resumed);
    let total_backoff: u64;
    match a2 {
        Action::CallApi(body) => {
            assert_eq!(body.tool_choice, ToolChoice::Auto);
            assert_eq!(body.messages.len(), 2);
        }
        other => panic!("expected a retry call, got {:?}", other),
    }
    let (orch, a3) = orch.step(Event::Api(server_error()));
    match a3 {
        Action::Pause { delay_ms } => {
            assert_eq!(delay_ms, 1000);
            total_backoff = 500 + delay_ms;
        }
        other => panic!("expected a second pause, got {:?}", other),
    }
    assert_eq!(total_backoff, 1500);
    let (orch, a4) = orch.step(Event::Resumed);
    assert!(matches!(a4, Action::CallApi(_)));
    let (_orch, a5) = orch.step(Event::Api(ok_reply("third time lucky")));
    match a5 {
        Action::Respond { reply } => assert_eq!(reply, "third time lucky"),
        other => panic!("expected success on the third attempt, got {:?}", other),
    }
}

#[test]
fn retry_sequence_three_failures_exhausts() {
    let (orch, _) = Orchestrator::start(&request("hi"));
    let (orch, _) = orch.step(Event::Api(server_error()));
    let (orch, _) = orch.step(Event::Resumed);
    let (orch, _) = orch.step(Event::Api(server_error()));
    let (orch, _) = orch.step(Event::Resumed);
    let (_orch, a5) = orch.step(Event::Api(server_error()));
    match a5 {
        Action::Fail { error } => match error {
            AppError::ExternalServiceRetryable { raw_response, .. } => {
                assert_eq!(raw_response, "overloaded");
            }
            other => panic!("expected the retryable class, got {:?}", other),
        },
        other => panic!("expected exhaustion after three attempts, got {:?}", other),
    }
}

#[test]
fn fatal_upstream_error_is_not_retried() {
    let (orch, _) = Orchestrator::start(&request("hi"));
    let ev = ApiEvent {
        status: 401,
        reason: "Unauthorized".to_string(),
        body: BodyParse::Unparseable { parse_err: String::new(), raw: "no key".to_string() },
    };
    let (_orch, action) = orch.step(Event::Api(ev));
    assert!(matches!(action, Action::Fail { error: AppError::ExternalServiceWithRaw { .. } }));
}

#[test]
fn empty_choices_fail_fatally() {
    let (orch, _) = Orchestrator::start(&request("hi"));
    let ev = ApiEvent {
        status: 200,
        reason: "OK".to_string(),
        body: BodyParse::Completion(vec![]),
    };
    let (_orch, action) = orch.step(Event::Api(ev));
    match action {
        Action::Fail { error: AppError::ExternalService(m) } => {
            assert_eq!(m, "No choices returned from OpenRouter");
        }
        other => panic!("expected a fatal failure, got {:?}", other),
    }
}

#[test]
fn empty_argument_text_behaves_like_braces() {
    let run = |arguments: Option<&str>| -> String {
        let (orch, _) = Orchestrator::start(&request("hi"));
        let (_orch, action) = orch.step(Event::Api(tool_call_reply("semantic_search", arguments)));
        match action {
            Action::ParseArgs { text } => text,
            other => panic!("expected an argument parse, got {:?}", other),
        }
    };
    assert_eq!(run(None), "{}");
    assert_eq!(run(Some("")), "{}");
    assert_eq!(run(Some("{}")), "{}");
}

#[test]
fn malformed_arguments_fail_with_the_raw_text() {
    let (orch, _) = Orchestrator::start(&request("hi"));
    let (orch, action) = orch.step(Event::Api(tool_call_reply("semantic_search", Some("{oops"))));
    match &action {
        Action::ParseArgs { text } => assert_eq!(text, "{oops"),
        other => panic!("expected an argument parse, got {:?}", other),
    }
    let (_orch, action) = orch.step(Event::Args(Err("key must be a string".to_string())));
    match action {
        Action::Fail { error: AppError::ExternalServiceWithRaw { message, raw_response } } => {
            assert_eq!(message, "Assistant produced invalid tool arguments; please try again.");
            assert_eq!(raw_response, "{oops");
        }
        other => panic!("expected a fatal argument error, got {:?}", other),
    }
}

#[test]
fn search_failure_propagates_unchanged() {
    let (orch, _) = Orchestrator::start(&request("hi"));
    let (orch, _) = orch.step(Event::Api(tool_call_reply("semantic_search", Some("{}"))));
    let (orch, _) = orch.step(Event::Args(Ok(ToolArgs {
        query: "cat".to_string(),
        limit: None,
        languages: None,
        source_langid: None,
    })));
    let (_orch, action) = orch.step(Event::Search(Err(AppError::ExternalService(
        "Semantic search failed: timeout".to_string(),
    ))));
    match action {
        Action::Fail { error: AppError::ExternalService(m) } => {
            assert_eq!(m, "Semantic search failed: timeout");
        }
        other => panic!("expected the search error unchanged, got {:?}", other),
    }
}

#[test]
fn full_tool_round_trip() {
    // The whole protocol: the first call yields a search tool call for
    // "cat"; the engine-side search returns three rows; the second call is
    // made with tool use disallowed and its text is the final reply.
    let (orch, start_action) = Orchestrator::start(&request("word for cat"));
    assert!(matches!(start_action, Action::CallApi(_)));

    let (orch, action) = orch.step(Event::Api(tool_call_reply(
        "semantic_search",
        Some("{\"query\":\"cat\"}"),
    )));
    let text = match action {
        Action::ParseArgs { text } => text,
        other => panic!("expected an argument parse, got {:?}", other),
    };
    assert_eq!(text, "{\"query\":\"cat\"}");

    // The boundary parses the argument text; the machine clamps and
    // defaults.
    let (orch, action) = orch.step(Event::Args(Ok(ToolArgs {
        query: "cat".to_string(),
        limit: None,
        languages: None,
        source_langid: None,
    })));
    let params = match action {
        Action::RunSearch(params) => params,
        other => panic!("expected the search to run, got {:?}", other),
    };
    assert_eq!(params.search_term, "cat");
    assert_eq!(params.per_page, 10);
    assert_eq!(params.page, 1);
    assert_eq!(params.sort_by, "score");
    assert_eq!(params.sort_order, "desc");
    assert!(!params.include_comments);

    let results = SearchOutput {
        definitions: vec![
            row("mlatu", "$x_1$ is a cat"),
            row("mlatu'e", "cat-like"),
            row("gerku", "$x_1$ is a dog"),
        ],
        total: 3,
    };
    let (orch, action) = orch.step(Event::Search(Ok(results)));
    match &action {
        Action::CallApi(body) => {
            assert_eq!(body.tool_choice, ToolChoice::NoTools);
            assert_eq!(body.messages.len(), 4);
            assert_eq!(body.messages[2].role, "assistant");
            let tool_msg = &body.messages[3];
            assert_eq!(tool_msg.role, "tool");
            assert_eq!(tool_msg.tool_call_id.as_deref(), Some("call_1"));
            assert_eq!(tool_msg.name.as_deref(), Some("semantic_search"));
            assert!(tool_msg.content.starts_with("{\"results\":["));
            assert!(tool_msg.content.ends_with("],\"total\":3}"));
            assert!(tool_msg.content.contains("\"valsi\":\"mlatu\""));
            assert!(tool_msg.content.contains("\"definition\":\"x_1 is a cat\""));
        }
        other => panic!("expected the second call, got {:?}", other),
    }

    let (_orch, action) = orch.step(Event::Api(ok_reply("Based on the dictionary, ...")));
    match action {
        Action::Respond { reply } => assert_eq!(reply, "Based on the dictionary, ..."),
        other => panic!("expected the final reply, got {:?}", other),
    }
}
