use vstd::prelude::*;
use vstd::string::*;

use crate::text::{
    append_i32_decimal, int_decimal, is_whitespace_char, lemma_trim_end_char_shape,
    lemma_trim_ws_shape, lemma_trimmed_ends_are_not_whitespace, trim, trim_end_char,
    trim_end_matches_char, trim_ws,
};

verus! {

/// Configuration for a custom OpenAI-compatible AI endpoint, captured before
/// a request is spawned so that the request needs nothing else.
#[derive(Clone, Debug)]
pub struct CustomEndpointConfig {
    pub base_url: String,
    pub api_key: String,
    pub model: String,
}

#[verifier::external_type_specification]
#[verifier::external_body]
pub struct ExReqwestError(reqwest::Error);

/// Why a suggestion request gave no suggestion.
#[derive(Debug)]
pub enum CustomEndpointError {
    /// The HTTP request could not be sent, or its answer could not be read.
    RequestFailed(reqwest::Error),
    /// The endpoint answered without any non-blank content.
    EmptyResponse,
    /// The endpoint answered with a non-success status; the text says which.
    ParseFailed(String),
}

/// One message of a chat completion conversation.
#[derive(Clone, Debug)]
pub struct ChatMessage {
    pub role: String,
    pub content: String,
}

impl View for ChatMessage {
    type V = (Seq<char>, Seq<char>);

    /// The role and the content.
    open spec fn view(&self) -> (Seq<char>, Seq<char>) {
        (self.role@, self.content@)
    }
}

/// The instructions given to the model as the system message.
pub open spec fn system_prompt() -> Seq<char> {
    "You are a terminal command assistant. Analyze the command output and provide a brief, actionable suggestion. Keep your response to 1-2 sentences. Do not use markdown formatting."@
}

/// The line naming the working directory, where there is one.
pub open spec fn pwd_line(pwd: Option<Seq<char>>) -> Seq<char> {
    match pwd {
        Some(p) => "\nWorking Directory: "@ + p,
        None => Seq::empty(),
    }
}

/// The user message: a request to fix a failed command, or to suggest what
/// to do next after a successful one.
pub open spec fn user_prompt(
    command: Seq<char>,
    output: Seq<char>,
    exit_code: int,
    pwd: Option<Seq<char>>,
) -> Seq<char> {
    if exit_code != 0 {
        "A command failed with exit code "@ + int_decimal(exit_code)
            + ". Analyze the error and suggest how to fix it.\n\nCommand: "@ + command
            + "\nExit Code: "@ + int_decimal(exit_code) + pwd_line(pwd) + "\nOutput:\n"@ + output
    } else {
        "Suggest a useful next action based on the command that was just executed.\n\nCommand: "@
            + command + pwd_line(pwd) + "\nOutput:\n"@ + output
    }
}

/// The conversation sent for one command: the system message, then the user
/// message.
pub open spec fn prompt_messages(
    command: Seq<char>,
    output: Seq<char>,
    exit_code: int,
    pwd: Option<Seq<char>>,
) -> Seq<(Seq<char>, Seq<char>)> {
    seq![
        ("system"@, system_prompt()),
        ("user"@, user_prompt(command, output, exit_code, pwd)),
    ]
}

/// The text of an optional string.
pub open spec fn opt_str_view(s: Option<&str>) -> Option<Seq<char>> {
    match s {
        Some(t) => Some(t@),
        None => None,
    }
}

/// The role and content of each message, in order.
pub open spec fn messages_view(messages: Seq<ChatMessage>) -> Seq<(Seq<char>, Seq<char>)> {
    messages.map_values(|m: ChatMessage| m@)
}

/// After a successful command the conversation is the system instructions,
/// then a request for a next action naming the command, the working
/// directory where one is given, and the output.
pub proof fn lemma_success_prompt_text(
    command: Seq<char>,
    output: Seq<char>,
    pwd: Option<Seq<char>>,
)
    ensures
        prompt_messages(command, output, 0, pwd) == seq![
            ("system"@, "You are a terminal command assistant. Analyze the command output and provide a brief, actionable suggestion. Keep your response to 1-2 sentences. Do not use markdown formatting."@),
            ("user"@, "Suggest a useful next action based on the command that was just executed.\n\nCommand: "@
                + command + match pwd {
                Some(p) => "\nWorking Directory: "@ + p,
                None => Seq::<char>::empty(),
            } + "\nOutput:\n"@ + output),
        ],
{
    assert(prompt_messages(command, output, 0, pwd) =~= seq![
            ("system"@, "You are a terminal command assistant. Analyze the command output and provide a brief, actionable suggestion. Keep your response to 1-2 sentences. Do not use markdown formatting."@),
            ("user"@, "Suggest a useful next action based on the command that was just executed.\n\nCommand: "@
                + command + match pwd {
                Some(p) => "\nWorking Directory: "@ + p,
                None => Seq::<char>::empty(),
            } + "\nOutput:\n"@ + output),
        ]);
}

/// After a failed command the user message asks how to fix it, and names the
/// exit code twice, the command, the working directory where one is given,
/// and the output.
pub proof fn lemma_failure_prompt_text(
    command: Seq<char>,
    output: Seq<char>,
    exit_code: int,
    pwd: Option<Seq<char>>,
)
    requires
        exit_code != 0,
    ensures
        prompt_messages(command, output, exit_code, pwd).len() == 2,
        prompt_messages(command, output, exit_code, pwd)[0] == ("system"@, "You are a terminal command assistant. Analyze the command output and provide a brief, actionable suggestion. Keep your response to 1-2 sentences. Do not use markdown formatting."@),
        prompt_messages(command, output, exit_code, pwd)[1] == ("user"@, "A command failed with exit code "@
            + int_decimal(exit_code)
            + ". Analyze the error and suggest how to fix it.\n\nCommand: "@ + command
            + "\nExit Code: "@ + int_decimal(exit_code) + match pwd {
            Some(p) => "\nWorking Directory: "@ + p,
            None => Seq::<char>::empty(),
        } + "\nOutput:\n"@ + output),
{
}

/// Whatever the exit code, a given working directory is named in the user
/// message, right before the output.
pub proof fn lemma_prompt_names_working_directory(
    command: Seq<char>,
    output: Seq<char>,
    exit_code: int,
    pwd: Seq<char>,
)
    ensures
        ({
            let user = prompt_messages(command, output, exit_code, Some(pwd))[1].1;
            let tail = "\nWorking Directory: "@ + pwd + "\nOutput:\n"@ + output;
            user.len() >= tail.len() && user.subrange(user.len() - tail.len(), user.len() as int)
                == tail
        }),
{
    let user = prompt_messages(command, output, exit_code, Some(pwd))[1].1;
    let tail = "\nWorking Directory: "@ + pwd + "\nOutput:\n"@ + output;
    let head = if exit_code != 0 {
        "A command failed with exit code "@ + int_decimal(exit_code)
            + ". Analyze the error and suggest how to fix it.\n\nCommand: "@ + command
            + "\nExit Code: "@ + int_decimal(exit_code)
    } else {
        "Suggest a useful next action based on the command that was just executed.\n\nCommand: "@
            + command
    };
    assert(user =~= head + tail);
    assert(user.subrange(user.len() - tail.len(), user.len() as int) =~= tail);
}

/// Builds the chat conversation that asks for a suggestion about `command`.
pub fn build_prompt(command: &str, output: &str, exit_code: i32, pwd: Option<&str>) -> (messages:
    Vec<ChatMessage>)
    ensures
        messages_view(messages@) == prompt_messages(
            command@,
            output@,
            exit_code as int,
            opt_str_view(pwd),
        ),
{
    let mut pwd_text = String::new();
    if let Some(p) = pwd {
        pwd_text.append("\nWorking Directory: ");
        pwd_text.append(p);
    }
    assert(pwd_text@ =~= pwd_line(opt_str_view(pwd)));

    let system = String::from_str(
        "You are a terminal command assistant. Analyze the command output and provide a brief, actionable suggestion. Keep your response to 1-2 sentences. Do not use markdown formatting.",
    );

    let mut user = String::new();
    if exit_code != 0 {
        user.append("A command failed with exit code ");
        append_i32_decimal(&mut user, exit_code);
        user.append(". Analyze the error and suggest how to fix it.\n\nCommand: ");
        user.append(command);
        user.append("\nExit Code: ");
        append_i32_decimal(&mut user, exit_code);
        user.append(pwd_text.as_str());
        user.append("\nOutput:\n");
        user.append(output);
    } else {
        user.append(
            "Suggest a useful next action based on the command that was just executed.\n\nCommand: ",
        );
        user.append(command);
        user.append(pwd_text.as_str());
        user.append("\nOutput:\n");
        user.append(output);
    }
    assert(user@ =~= user_prompt(command@, output@, exit_code as int, opt_str_view(pwd)));

    let mut messages: Vec<ChatMessage> = Vec::new();
    messages.push(ChatMessage { role: String::from_str("system"), content: system });
    messages.push(ChatMessage { role: String::from_str("user"), content: user });
    assert(messages_view(messages@) =~= prompt_messages(
        command@,
        output@,
        exit_code as int,
        opt_str_view(pwd),
    ));
    messages
}

} // verus!

verus! {

/// The address of the chat completions resource under `base_url`: the base
/// without the slashes that end it, then `/chat/completions`.
pub open spec fn chat_completions_url_of(base_url: Seq<char>) -> Seq<char> {
    trim_end_char(base_url, '/') + "/chat/completions"@
}

/// Slashes that end the base address do not change where a request goes.
pub proof fn lemma_url_ignores_trailing_slash(base_url: Seq<char>)
    ensures
        chat_completions_url_of(base_url.push('/')) == chat_completions_url_of(base_url),
{
    assert(base_url.push('/').drop_last() =~= base_url);
}

/// The address is the base address with the slashes that end it cut off,
/// followed by exactly `/chat/completions`; a base that does not end in a
/// slash is kept whole.
pub proof fn lemma_url_is_base_then_resource(base_url: Seq<char>)
    ensures
        exists|k: int|
            #![trigger base_url.subrange(0, k)]
            0 <= k <= base_url.len() && chat_completions_url_of(base_url) == base_url.subrange(0, k)
                + "/chat/completions"@ && (forall|i: int| k <= i < base_url.len() ==> base_url[i]
                == '/') && (k > 0 ==> base_url[k - 1] != '/'),
        base_url.len() == 0 || base_url.last() != '/' ==> chat_completions_url_of(base_url)
            == base_url + "/chat/completions"@,
{
    lemma_trim_end_char_shape(base_url, '/');
    let k = trim_end_char(base_url, '/').len() as int;
    assert(base_url.subrange(0, k) == trim_end_char(base_url, '/'));
    if base_url.len() == 0 || base_url.last() != '/' {
        assert(k == base_url.len());
        assert(base_url.subrange(0, k) =~= base_url);
    }
}

/// The address that a suggestion request is posted to.
pub fn chat_completions_url(base_url: &str) -> (url: String)
    ensures
        url@ == chat_completions_url_of(base_url@),
{
    let mut url = trim_end_matches_char(base_url, '/');
    url.append("/chat/completions");
    url
}

/// The most tokens that a suggestion may take.
pub const SUGGESTION_MAX_TOKENS: u32 = 500;

/// The body of a chat completion request, but for its sampling temperature,
/// which is a floating-point setting of the caller.
#[derive(Debug)]
pub struct ChatCompletionRequest {
    pub model: String,
    pub messages: Vec<ChatMessage>,
    pub max_tokens: Option<u32>,
}

/// The HTTP method of a request.
#[derive(Clone, Copy, Debug, PartialEq, Eq, Structural)]
pub enum HttpMethod {
    Get,
    Post,
}

/// Everything that a suggestion request sends: how, where, with which
/// credential, and what.
#[derive(Debug)]
pub struct PreparedRequest {
    pub method: HttpMethod,
    pub url: String,
    /// The value of the `Content-Type` header.
    pub content_type: String,
    /// The bearer credential, where the configuration has a non-empty key.
    pub bearer_token: Option<String>,
    pub request: ChatCompletionRequest,
}

/// Frames the suggestion request about `command` for the endpoint of `config`.
pub fn prepare_request(
    config: CustomEndpointConfig,
    command: &str,
    output: &str,
    exit_code: i32,
    pwd: Option<&str>,
) -> (prepared: PreparedRequest)
    ensures
        prepared.method == HttpMethod::Post,
        prepared.url@ == chat_completions_url_of(config.base_url@),
        prepared.content_type@ == "application/json"@,
        (prepared.bearer_token is Some) == (config.api_key@.len() > 0),
        prepared.bearer_token matches Some(token) ==> token@ == config.api_key@,
        prepared.request.model@ == config.model@,
        messages_view(prepared.request.messages@) == prompt_messages(
            command@,
            output@,
            exit_code as int,
            opt_str_view(pwd),
        ),
        prepared.request.max_tokens == Some(SUGGESTION_MAX_TOKENS),
{
    let url = chat_completions_url(config.base_url.as_str());
    let messages = build_prompt(command, output, exit_code, pwd);
    let bearer_token = if config.api_key.as_str().is_empty() {
        None
    } else {
        Some(config.api_key)
    };
    PreparedRequest {
        method: HttpMethod::Post,
        url,
        content_type: String::from_str("application/json"),
        bearer_token,
        request: ChatCompletionRequest {
            model: config.model,
            messages,
            max_tokens: Some(SUGGESTION_MAX_TOKENS),
        },
    }
}

/// The message of a chat completion choice.
#[derive(Debug)]
pub struct ChoiceMessage {
    pub content: Option<String>,
}

/// One choice of a chat completion answer.
#[derive(Debug)]
pub struct Choice {
    pub message: ChoiceMessage,
}

/// A chat completion answer.
#[derive(Debug)]
pub struct ChatCompletionResponse {
    pub choices: Vec<Choice>,
}

/// The suggestion that an answer holds: the content of its first choice,
/// trimmed, where that is not blank.
pub open spec fn suggestion_of(response: ChatCompletionResponse) -> Option<Seq<char>> {
    if response.choices@.len() > 0 {
        match response.choices@[0].message.content {
            Some(c) => if trim_ws(c@).len() > 0 {
                Some(trim_ws(c@))
            } else {
                None
            },
            None => None,
        }
    } else {
        None
    }
}

/// A suggestion is never blank, and neither starts nor ends with whitespace.
pub proof fn lemma_suggestion_is_trimmed(response: ChatCompletionResponse)
    ensures
        suggestion_of(response) matches Some(t) ==> t.len() > 0 && !is_whitespace_char(t[0])
            && !is_whitespace_char(t.last()),
{
    if response.choices@.len() > 0 {
        if let Some(c) = response.choices@[0].message.content {
            lemma_trimmed_ends_are_not_whitespace(c@);
        }
    }
}

/// There is a suggestion exactly when the first choice has content that is
/// not all whitespace, and the suggestion is then that content, trimmed, with
/// no other condition on it.
pub proof fn lemma_suggestion_is_first_content_trimmed(response: ChatCompletionResponse)
    ensures
        suggestion_of(response) is Some <==> ({
            &&& response.choices@.len() > 0
            &&& response.choices@[0].message.content matches Some(c)
            &&& exists|i: int| 0 <= i < c@.len() && !is_whitespace_char(#[trigger] c@[i])
        }),
        suggestion_of(response) matches Some(t) ==> response.choices@[0].message.content matches Some(
            c,
        ) && t == trim_ws(c@),
{
    if response.choices@.len() > 0 {
        if let Some(c) = response.choices@[0].message.content {
            lemma_trim_ws_shape(c@);
        }
    }
}

/// Takes the suggestion out of a chat completion answer.
pub fn extract_suggestion(response: ChatCompletionResponse) -> (result: Result<
    String,
    CustomEndpointError,
>)
    ensures
        match result {
            Ok(s) => suggestion_of(response) == Some(s@),
            Err(e) => suggestion_of(response) is None && e is EmptyResponse,
        },
{
    if response.choices.len() == 0 {
        return Err(CustomEndpointError::EmptyResponse);
    }
    match &response.choices[0].message.content {
        Some(c) => {
            let t = trim(c.as_str());
            if t.as_str().is_empty() {
                Err(CustomEndpointError::EmptyResponse)
            } else {
                Ok(t)
            }
        },
        None => Err(CustomEndpointError::EmptyResponse),
    }
}

/// What `Display` writes for the HTTP status code `code` (`100 <= code <= 999`).
pub uninterp spec fn http_status_text(code: u16) -> Seq<char>;

/// Calls `reqwest::StatusCode::from_u16` and `StatusCode::is_success`: a code
/// is accepted in `100..=999`, and is a success in `200..300`.
#[verifier::external_body]
fn status_is_success(code: u16) -> (success: bool)
    ensures
        success == (200 <= code < 300),
{
    match reqwest::StatusCode::from_u16(code) {
        Ok(status) => status.is_success(),
        Err(_) => false,
    }
}

/// Writes `reqwest::StatusCode` (from `StatusCode::from_u16`) with its
/// `Display` impl: the code and its canonical reason. The text itself is
/// named, not stated.
#[verifier::external_body]
fn status_text(code: u16) -> (text: String)
    requires
        100 <= code <= 999,
    ensures
        text@ == http_status_text(code),
{
    match reqwest::StatusCode::from_u16(code) {
        Ok(status) => format!("{}", status),
        Err(_) => String::new(),
    }
}

/// Whether an answer with status `code` carries a completion.
pub fn response_status_is_success(code: u16) -> (success: bool)
    ensures
        success == (200 <= code < 300),
{
    status_is_success(code)
}

/// The error for an answer whose status writes as `status` and whose body is
/// `body`.
pub fn status_failure_error(status: &str, body: &str) -> (error: CustomEndpointError)
    ensures
        error matches CustomEndpointError::ParseFailed(m) && m@ == "HTTP "@ + status@ + ": "@
            + body@,
{
    let mut m = String::from_str("HTTP ");
    m.append(status);
    m.append(": ");
    m.append(body);
    CustomEndpointError::ParseFailed(m)
}

/// The error for an answer with the status `code` and the body `body`.
pub fn http_status_failure(code: u16, body: &str) -> (error: CustomEndpointError)
    requires
        100 <= code <= 999,
    ensures
        error matches CustomEndpointError::ParseFailed(m) && m@ == "HTTP "@ + http_status_text(
            code,
        ) + ": "@ + body@,
{
    let text = status_text(code);
    status_failure_error(text.as_str(), body)
}

} // verus!

verus! {

/// Where a suggestion request stands once it has been sent.
#[derive(Debug)]
pub enum SuggestionState {
    /// Waiting for the endpoint to answer.
    AwaitingResponse,
    /// The answer had the non-success status `status`; its body is being read
    /// as text.
    ReadingErrorBody { status: u16 },
    /// The answer was a success; its body is being decoded as a completion.
    DecodingCompletion,
    /// The request has its result.
    Finished,
}

/// What the HTTP exchange reports back.
#[derive(Debug)]
pub enum SuggestionEvent {
    /// The client could not be built, or the request could not be sent.
    SendFailed(reqwest::Error),
    /// The endpoint answered with the status `status`.
    ResponseReceived { status: u16 },
    /// The body of a non-success answer, read as text.
    ErrorBodyRead(Result<String, reqwest::Error>),
    /// The body of a success answer, decoded as a completion.
    CompletionDecoded(Result<ChatCompletionResponse, reqwest::Error>),
}

/// What the HTTP exchange is to do next.
#[derive(Debug)]
pub enum SuggestionAction {
    /// Read the answer's body as text.
    ReadErrorBody,
    /// Decode the answer's body as a chat completion.
    DecodeCompletion,
    /// Stop with this result.
    Finish(Result<String, CustomEndpointError>),
}

/// Whether `event` can follow in `state`: each state waits for the one kind
/// of report that its action asked for, and a status lies in `100..=999`.
pub open spec fn event_fits(state: SuggestionState, event: SuggestionEvent) -> bool {
    match state {
        SuggestionState::AwaitingResponse => match event {
            SuggestionEvent::SendFailed(_) => true,
            SuggestionEvent::ResponseReceived { status } => 100 <= status <= 999,
            _ => false,
        },
        SuggestionState::ReadingErrorBody { status } => 100 <= status <= 999
            && event is ErrorBodyRead,
        SuggestionState::DecodingCompletion => event is CompletionDecoded,
        SuggestionState::Finished => false,
    }
}

/// The text of an error body: what was read, or nothing where it could not be
/// read.
pub open spec fn error_body_text(read: Result<String, reqwest::Error>) -> Seq<char> {
    match read {
        Ok(b) => b@,
        Err(_) => Seq::empty(),
    }
}

impl SuggestionState {
    /// Exact test of `event_fits`.
    pub fn accepts(&self, event: &SuggestionEvent) -> (fits: bool)
        ensures
            fits == event_fits(*self, *event),
    {
        match self {
            SuggestionState::AwaitingResponse => match event {
                SuggestionEvent::SendFailed(_) => true,
                SuggestionEvent::ResponseReceived { status } => 100 <= *status && *status <= 999,
                _ => false,
            },
            SuggestionState::ReadingErrorBody { status } => 100 <= *status && *status <= 999
                && matches!(event, SuggestionEvent::ErrorBodyRead(_)),
            SuggestionState::DecodingCompletion => matches!(
                event,
                SuggestionEvent::CompletionDecoded(_)
            ),
            SuggestionState::Finished => false,
        }
    }
}

/// One step of a suggestion request: from where it stands and what the
/// exchange reported, where it stands next and what the exchange does next.
/// A failed send, and a completion that cannot be decoded, end in
/// `RequestFailed`; a non-success status leads to reading the body as text,
/// never to decoding it, and then to `ParseFailed` with the status and that
/// text; a decoded completion ends in its suggestion.
pub fn suggestion_step(state: SuggestionState, event: SuggestionEvent) -> (next: (
    SuggestionState,
    SuggestionAction,
))
    requires
        event_fits(state, event),
    ensures
        match event {
            SuggestionEvent::SendFailed(e) => {
                &&& next.0 is Finished
                &&& next.1 matches SuggestionAction::Finish(
                    Err(CustomEndpointError::RequestFailed(e2)),
                ) && e2 == e
            },
            SuggestionEvent::ResponseReceived { status } => if 200 <= status < 300 {
                &&& next.0 is DecodingCompletion
                &&& next.1 is DecodeCompletion
            } else {
                &&& next.0 == (SuggestionState::ReadingErrorBody { status })
                &&& next.1 is ReadErrorBody
            },
            SuggestionEvent::ErrorBodyRead(read) => {
                &&& next.0 is Finished
                &&& next.1 matches SuggestionAction::Finish(
                    Err(CustomEndpointError::ParseFailed(m)),
                ) && m@ == "HTTP "@ + http_status_text(state->status) + ": "@
                    + error_body_text(read)
            },
            SuggestionEvent::CompletionDecoded(decoded) => {
                &&& next.0 is Finished
                &&& match decoded {
                    Err(e) => next.1 matches SuggestionAction::Finish(
                        Err(CustomEndpointError::RequestFailed(e2)),
                    ) && e2 == e,
                    Ok(response) => next.1 matches SuggestionAction::Finish(result) && match result {
                        Ok(s) => suggestion_of(response) == Some(s@),
                        Err(e) => suggestion_of(response) is None && e is EmptyResponse,
                    },
                }
            },
        },
{
    match event {
        SuggestionEvent::SendFailed(e) => (
            SuggestionState::Finished,
            SuggestionAction::Finish(Err(CustomEndpointError::RequestFailed(e))),
        ),
        SuggestionEvent::ResponseReceived { status } => {
            if response_status_is_success(status) {
                (SuggestionState::DecodingCompletion, SuggestionAction::DecodeCompletion)
            } else {
                (SuggestionState::ReadingErrorBody { status }, SuggestionAction::ReadErrorBody)
            }
        },
        SuggestionEvent::ErrorBodyRead(read) => {
            let status = match state {
                SuggestionState::ReadingErrorBody { status } => status,
                _ => 100,
            };
            let body = match read {
                Ok(b) => b,
                Err(_) => String::new(),
            };
            (
                SuggestionState::Finished,
                SuggestionAction::Finish(Err(http_status_failure(status, body.as_str()))),
            )
        },
        SuggestionEvent::CompletionDecoded(decoded) => {
            let result = match decoded {
                Err(e) => Err(CustomEndpointError::RequestFailed(e)),
                Ok(response) => extract_suggestion(response),
            };
            (SuggestionState::Finished, SuggestionAction::Finish(result))
        },
    }
}

} // verus!
