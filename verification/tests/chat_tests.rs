use lexichat::chat::{
    system_prompt, to_openrouter_role, map_chat_messages, classify_response, search_tool,
    ApiEvent, BodyParse, ChatMessage, Outcome, ReplyMessage, SYSTEM_PROMPT_BASE,
};
use lexichat::chat::ChatResponse;
use lexichat::error::AppError;

#[test]
fn system_prompt_without_locale_is_the_base_text() {
    assert_eq!(system_prompt(None), SYSTEM_PROMPT_BASE);
    assert_eq!(system_prompt(Some("")), SYSTEM_PROMPT_BASE);
}

#[test]
fn system_prompt_appends_locale_hint() {
    let p = system_prompt(Some("fr"));
    assert!(p.starts_with(SYSTEM_PROMPT_BASE));
    assert!(p.ends_with("\nPrefer to explain things in locale `fr` where appropriate."));
}

#[test]
fn a_response_carries_its_reply() {
    let r = ChatResponse { reply: "done".to_string() };
    assert_eq!(r.reply, "done");
}

#[test]
fn known_roles_pass_through() {
    assert_eq!(to_openrouter_role("user"), "user");
    assert_eq!(to_openrouter_role("assistant"), "assistant");
    assert_eq!(to_openrouter_role("system"), "system");
}

#[test]
fn narrator_role_maps_to_user() {
    assert_eq!(to_openrouter_role("narrator"), "user");
}

#[test]
fn unknown_roles_never_fail_mapping() {
    let messages = vec![
        ChatMessage { role: "narrator".to_string(), content: "once upon".to_string() },
        ChatMessage { role: "tool".to_string(), content: "beep".to_string() },
    ];
    let mapped = map_chat_messages(&messages);
    assert_eq!(mapped.len(), 2);
    assert_eq!(mapped[0].role, "user");
    assert_eq!(mapped[0].content, "once upon");
    assert_eq!(mapped[1].role, "user");
}

#[test]
fn the_declared_tool_is_semantic_search() {
    let tool = search_tool();
    assert_eq!(tool.name, "semantic_search");
    assert!(tool.parameters_json.contains("\"required\":[\"query\"]"));
}

fn ev(status: u16, reason: &str, body: BodyParse) -> ApiEvent {
    ApiEvent { status, reason: reason.to_string(), body }
}

#[test]
fn a_5xx_is_transient() {
    let r = classify_response(
        "first chat/completions",
        ev(500, "Internal Server Error", BodyParse::Unparseable {
            parse_err: String::new(),
            raw: "oops".to_string(),
        }),
    );
    match r {
        Outcome::Transient(AppError::ExternalServiceRetryable { message, raw_response }) => {
            assert_eq!(message, "first chat/completions returned 500 Internal Server Error");
            assert_eq!(raw_response, "oops");
        }
        other => panic!("expected a transient outcome, got {:?}", other),
    }
}

#[test]
fn a_4xx_is_fatal() {
    let r = classify_response(
        "first chat/completions",
        ev(400, "Bad Request", BodyParse::Unparseable {
            parse_err: String::new(),
            raw: "bad".to_string(),
        }),
    );
    match r {
        Outcome::Broken(AppError::ExternalServiceWithRaw { message, raw_response }) => {
            assert_eq!(message, "first chat/completions returned 400 Bad Request");
            assert_eq!(raw_response, "bad");
        }
        other => panic!("expected a fatal outcome, got {:?}", other),
    }
}

#[test]
fn an_unparseable_2xx_body_is_transient() {
    let r = classify_response(
        "second chat/completions",
        ev(200, "OK", BodyParse::Unparseable {
            parse_err: "expected value".to_string(),
            raw: "garbage".to_string(),
        }),
    );
    match r {
        Outcome::Transient(AppError::ExternalServiceRetryable { message, raw_response }) => {
            assert_eq!(message, "Invalid second chat/completions response: expected value");
            assert_eq!(raw_response, "garbage");
        }
        other => panic!("expected a transient outcome, got {:?}", other),
    }
}

#[test]
fn an_error_envelope_with_server_code_is_transient() {
    let r = classify_response(
        "first chat/completions",
        ev(200, "OK", BodyParse::ErrorEnvelope {
            message: "Internal Server Error".to_string(),
            code: Some(500),
            parse_err: "missing field".to_string(),
            raw: "{\"error\":{}}".to_string(),
        }),
    );
    match r {
        Outcome::Transient(AppError::ExternalServiceRetryable { message, .. }) => {
            assert_eq!(message, "first chat/completions: Internal Server Error");
        }
        other => panic!("expected a transient outcome, got {:?}", other),
    }
}

#[test]
fn an_error_envelope_without_code_is_transient() {
    let r = classify_response(
        "first chat/completions",
        ev(200, "OK", BodyParse::ErrorEnvelope {
            message: String::new(),
            code: None,
            parse_err: "missing field choices".to_string(),
            raw: "{}".to_string(),
        }),
    );
    match r {
        Outcome::Transient(AppError::ExternalServiceRetryable { message, .. }) => {
            assert_eq!(message, "Invalid first chat/completions response: missing field choices");
        }
        other => panic!("expected a transient outcome, got {:?}", other),
    }
}

#[test]
fn an_error_envelope_with_client_code_is_fatal() {
    let r = classify_response(
        "first chat/completions",
        ev(200, "OK", BodyParse::ErrorEnvelope {
            message: "quota".to_string(),
            code: Some(429),
            parse_err: "missing field".to_string(),
            raw: "{\"error\":{}}".to_string(),
        }),
    );
    assert!(matches!(r, Outcome::Broken(AppError::ExternalServiceWithRaw { .. })));
}

#[test]
fn a_parsed_completion_is_accepted() {
    let r = classify_response(
        "first chat/completions",
        ev(200, "OK", BodyParse::Completion(vec![ReplyMessage {
            role: "assistant".to_string(),
            content: "hi".to_string(),
            tool_calls: None,
        }])),
    );
    match r {
        Outcome::Accepted(choices) => {
            assert_eq!(choices.len(), 1);
            assert_eq!(choices[0].content, "hi");
        }
        other => panic!("expected an accepted outcome, got {:?}", other),
    }
}
