use nowarp::custom_endpoint::{
    build_prompt, chat_completions_url, extract_suggestion, http_status_failure, prepare_request,
    response_status_is_success, status_failure_error, ChatCompletionResponse, Choice,
    ChoiceMessage, CustomEndpointConfig, CustomEndpointError, SUGGESTION_MAX_TOKENS,
    suggestion_step, HttpMethod, SuggestionAction, SuggestionEvent, SuggestionState,
};

const SYSTEM: &str = "You are a terminal command assistant. Analyze the command output and provide a brief, actionable suggestion. Keep your response to 1-2 sentences. Do not use markdown formatting.";

fn response(contents: Vec<Option<&str>>) -> ChatCompletionResponse {
    ChatCompletionResponse {
        choices: contents
            .into_iter()
            .map(|c| Choice {
                message: ChoiceMessage {
                    content: c.map(|s| s.to_string()),
                },
            })
            .collect(),
    }
}

#[test]
fn prompt_for_failed_command_names_exit_code_and_directory() {
    let messages = build_prompt("cargo build", "error[E0308]", 101, Some("/home/me"));
    assert_eq!(messages.len(), 2);
    assert_eq!(messages[0].role, "system");
    assert_eq!(messages[0].content, SYSTEM);
    assert_eq!(messages[1].role, "user");
    assert_eq!(
        messages[1].content,
        "A command failed with exit code 101. Analyze the error and suggest how to fix it.\n\nCommand: cargo build\nExit Code: 101\nWorking Directory: /home/me\nOutput:\nerror[E0308]"
    );
}

#[test]
fn prompt_for_successful_command_asks_for_next_action() {
    let messages = build_prompt("ls", "a b", 0, None);
    assert_eq!(messages[0].content, SYSTEM);
    assert_eq!(
        messages[1].content,
        "Suggest a useful next action based on the command that was just executed.\n\nCommand: ls\nOutput:\na b"
    );
}

#[test]
fn prompt_writes_negative_and_extreme_exit_codes() {
    let messages = build_prompt("x", "", -2147483648, None);
    assert_eq!(
        messages[1].content,
        "A command failed with exit code -2147483648. Analyze the error and suggest how to fix it.\n\nCommand: x\nExit Code: -2147483648\nOutput:\n"
    );
    let messages = build_prompt("x", "o", 7, Some(""));
    assert_eq!(
        messages[1].content,
        "A command failed with exit code 7. Analyze the error and suggest how to fix it.\n\nCommand: x\nExit Code: 7\nWorking Directory: \nOutput:\no"
    );
}

#[test]
fn url_drops_trailing_slashes_of_base() {
    assert_eq!(
        chat_completions_url("https://api.example.com/v1"),
        "https://api.example.com/v1/chat/completions"
    );
    assert_eq!(
        chat_completions_url("https://api.example.com/v1///"),
        "https://api.example.com/v1/chat/completions"
    );
    assert_eq!(chat_completions_url(""), "/chat/completions");
}

#[test]
fn request_uses_bearer_only_with_a_key() {
    let config = CustomEndpointConfig {
        base_url: "http://localhost:11434/v1/".to_string(),
        api_key: "SECRET-REDACTED".to_string(),
        model: "llama3".to_string(),
    };
    let prepared = prepare_request(config, "git status", "clean", 0, None);
    assert_eq!(prepared.method, HttpMethod::Post);
    assert_eq!(prepared.content_type, "application/json");
    assert_eq!(prepared.url, "http://localhost:11434/v1/chat/completions");
    assert_eq!(prepared.bearer_token.as_deref(), Some("SECRET-REDACTED"));
    assert_eq!(prepared.request.model, "llama3");
    assert_eq!(prepared.request.max_tokens, Some(SUGGESTION_MAX_TOKENS));
    assert_eq!(prepared.request.max_tokens, Some(500));
    assert_eq!(prepared.request.messages.len(), 2);

    let config = CustomEndpointConfig {
        base_url: "http://localhost".to_string(),
        api_key: String::new(),
        model: "m".to_string(),
    };
    let prepared = prepare_request(config, "git status", "clean", 0, None);
    assert!(prepared.bearer_token.is_none());
}

#[test]
fn suggestion_is_first_choice_trimmed() {
    let r = extract_suggestion(response(vec![Some("  Run `cargo fix`.\n"), Some("other")]));
    assert_eq!(r.unwrap(), "Run `cargo fix`.");
}

#[test]
fn blank_or_missing_content_is_empty_response() {
    assert!(matches!(
        extract_suggestion(response(vec![])),
        Err(CustomEndpointError::EmptyResponse)
    ));
    assert!(matches!(
        extract_suggestion(response(vec![None, Some("later")])),
        Err(CustomEndpointError::EmptyResponse)
    ));
    assert!(matches!(
        extract_suggestion(response(vec![Some(" \t\n\u{a0}")])),
        Err(CustomEndpointError::EmptyResponse)
    ));
}

#[test]
fn success_statuses_are_two_hundreds() {
    assert!(response_status_is_success(200));
    assert!(response_status_is_success(204));
    assert!(response_status_is_success(299));
    assert!(!response_status_is_success(199));
    assert!(!response_status_is_success(300));
    assert!(!response_status_is_success(404));
    assert!(!response_status_is_success(0));
}

#[test]
fn failure_status_becomes_parse_failed_with_status_and_body() {
    match http_status_failure(404, "not here") {
        CustomEndpointError::ParseFailed(m) => assert_eq!(m, "HTTP 404 Not Found: not here"),
        other => panic!("unexpected {:?}", other),
    }
    match http_status_failure(599, "") {
        CustomEndpointError::ParseFailed(m) => assert_eq!(m, "HTTP 599 <unknown status code>: "),
        other => panic!("unexpected {:?}", other),
    }
    match status_failure_error("500 Internal Server Error", "boom") {
        CustomEndpointError::ParseFailed(m) => {
            assert_eq!(m, "HTTP 500 Internal Server Error: boom")
        }
        other => panic!("unexpected {:?}", other),
    }
}

#[test]
fn failed_status_reads_body_as_text_and_ends_in_parse_failed() {
    let (state, action) = suggestion_step(
        SuggestionState::AwaitingResponse,
        SuggestionEvent::ResponseReceived { status: 404 },
    );
    assert!(matches!(state, SuggestionState::ReadingErrorBody { status: 404 }));
    assert!(matches!(action, SuggestionAction::ReadErrorBody));
    let (state, action) = suggestion_step(state, SuggestionEvent::ErrorBodyRead(Ok("gone".to_string())));
    assert!(matches!(state, SuggestionState::Finished));
    match action {
        SuggestionAction::Finish(Err(CustomEndpointError::ParseFailed(m))) => {
            assert_eq!(m, "HTTP 404 Not Found: gone")
        }
        other => panic!("unexpected {:?}", other),
    }
}

#[test]
fn success_status_decodes_completion_and_ends_in_suggestion() {
    let (state, action) = suggestion_step(
        SuggestionState::AwaitingResponse,
        SuggestionEvent::ResponseReceived { status: 200 },
    );
    assert!(matches!(state, SuggestionState::DecodingCompletion));
    assert!(matches!(action, SuggestionAction::DecodeCompletion));
    assert!(state.accepts(&SuggestionEvent::CompletionDecoded(Ok(response(vec![])))));
    assert!(!state.accepts(&SuggestionEvent::ErrorBodyRead(Ok(String::new()))));
    let (_, action) = suggestion_step(
        state,
        SuggestionEvent::CompletionDecoded(Ok(response(vec![Some(" try again ")]))),
    );
    match action {
        SuggestionAction::Finish(Ok(s)) => assert_eq!(s, "try again"),
        other => panic!("unexpected {:?}", other),
    }
}
