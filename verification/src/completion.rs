//! The request to the completion endpoint and the classification of what it
//! answers.

use crate::config::Config;
use crate::failure::{Fatal, FatalView};
use crate::json::{completion_text, completion_text_in, error_message, error_message_in};
use crate::prompt::{build_prompt, closing_fence, prompt_text, OsHint};
use crate::text::{lemma_trimmed_is_clean, trim, trimmed, whitespace};
use vstd::prelude::*;
use vstd::string::*;

verus! {

/// One request to the completion endpoint: where it goes, the header that
/// authorises it, and the fields of its body.
#[derive(Debug, PartialEq, Eq)]
pub struct CompletionRequest {
    pub url: String,
    pub authorization: String,
    pub model: String,
    pub prompt: String,
    pub max_tokens: u32,
    pub temperature: u32,
    pub top_p: u32,
    pub stop: String,
    pub suffix: String,
    pub presence_penalty: u32,
    pub frequency_penalty: u32,
}

/// A `CompletionRequest` with its texts as sequences of characters.
pub struct CompletionRequestView {
    pub url: Seq<char>,
    pub authorization: Seq<char>,
    pub model: Seq<char>,
    pub prompt: Seq<char>,
    pub max_tokens: u32,
    pub temperature: u32,
    pub top_p: u32,
    pub stop: Seq<char>,
    pub suffix: Seq<char>,
    pub presence_penalty: u32,
    pub frequency_penalty: u32,
}

impl View for CompletionRequest {
    type V = CompletionRequestView;

    open spec fn view(&self) -> CompletionRequestView {
        CompletionRequestView {
            url: self.url@,
            authorization: self.authorization@,
            model: self.model@,
            prompt: self.prompt@,
            max_tokens: self.max_tokens,
            temperature: self.temperature,
            top_p: self.top_p,
            stop: self.stop@,
            suffix: self.suffix@,
            presence_penalty: self.presence_penalty,
            frequency_penalty: self.frequency_penalty,
        }
    }
}

/// What the endpoint answered, once per run.
#[derive(Debug, PartialEq, Eq)]
pub enum CompletionOutcome {
    /// The generated code, without the white space around it.
    Success(String),
    /// The request was refused; the text says why.
    ClientError(String),
    /// The endpoint failed with this status.
    ServerError(u16),
}

/// A `CompletionOutcome` with its text as a sequence of characters.
pub enum CompletionOutcomeView {
    Success(Seq<char>),
    ClientError(Seq<char>),
    ServerError(u16),
}

impl View for CompletionOutcome {
    type V = CompletionOutcomeView;

    open spec fn view(&self) -> CompletionOutcomeView {
        match self {
            CompletionOutcome::Success(code) => CompletionOutcomeView::Success(code@),
            CompletionOutcome::ClientError(message) => CompletionOutcomeView::ClientError(
                message@,
            ),
            CompletionOutcome::ServerError(status) => CompletionOutcomeView::ServerError(*status),
        }
    }
}

/// The request for a task: the endpoint below the configured address, the
/// credential as a bearer token, the prompt, and the fixed parameters of
/// generation. Sampling is pinned to the least random setting, and generation
/// stops at the closing fence.
pub open spec fn request_for(
    api_base: Seq<char>,
    api_key: Seq<char>,
    description: Seq<char>,
    os: OsHint,
) -> CompletionRequestView {
    CompletionRequestView {
        url: api_base + "/completions"@,
        authorization: "Bearer "@ + api_key,
        model: "gpt-3.5-turbo-instruct"@,
        prompt: prompt_text(description, os),
        max_tokens: 1000,
        temperature: 0,
        top_p: 1,
        stop: closing_fence(),
        suffix: "\n"@ + closing_fence(),
        presence_penalty: 0,
        frequency_penalty: 0,
    }
}

/// Whether `status` reports an error of the client: 400 to 499.
pub open spec fn is_client_error(status: u16) -> bool {
    400 <= status < 500
}

/// Whether `status` reports an error of the server: 500 to 599.
pub open spec fn is_server_error(status: u16) -> bool {
    500 <= status < 600
}

/// The reason given for a refused request whose body names none.
pub open spec fn credential_hint() -> Seq<char> {
    "the request was refused; check that OPENAI_API_KEY holds a valid key"@
}

/// The outcome of a response with the status `status`, where `message` is the
/// error message its body holds and `text` the generated text, each `None`
/// where the body holds none. A client error carries the message or, without
/// one, the hint at the credential; a server error carries the status; any
/// other status is taken for success and needs the text.
pub open spec fn outcome_of(
    status: u16,
    message: Option<Seq<char>>,
    text: Option<Seq<char>>,
) -> Result<CompletionOutcomeView, FatalView> {
    if is_client_error(status) {
        Ok(
            CompletionOutcomeView::ClientError(
                match message {
                    Some(reason) => reason,
                    None => credential_hint(),
                },
            ),
        )
    } else if is_server_error(status) {
        Ok(CompletionOutcomeView::ServerError(status))
    } else {
        match text {
            Some(code) => Ok(CompletionOutcomeView::Success(trimmed(code))),
            None => Err(FatalView::MalformedResponse),
        }
    }
}

/// The outcome of a response with the status `status` and the body `body`.
pub open spec fn response_outcome(status: u16, body: Seq<u8>) -> Result<
    CompletionOutcomeView,
    FatalView,
> {
    outcome_of(status, error_message_in(body), completion_text_in(body))
}

/// The generated code of `outcome`, or the failure it amounts to.
pub open spec fn code_of(outcome: CompletionOutcomeView) -> Result<Seq<char>, FatalView> {
    match outcome {
        CompletionOutcomeView::Success(code) => Ok(code),
        CompletionOutcomeView::ClientError(message) => Err(FatalView::Api(message)),
        CompletionOutcomeView::ServerError(status) => Err(FatalView::Server(status)),
    }
}

/// Generated code comes without white space around it: whatever the
/// response held, the code of a successful outcome neither starts nor ends
/// with white space, and trimming it changes nothing.
pub proof fn lemma_code_is_trimmed(
    status: u16,
    message: Option<Seq<char>>,
    text: Option<Seq<char>>,
)
    ensures
        outcome_of(status, message, text) matches Ok(CompletionOutcomeView::Success(code))
            ==> trimmed(code) == code && (code.len() > 0 ==> !whitespace(code.first())
            && !whitespace(code.last())),
{
    if let Some(raw) = text {
        lemma_trimmed_is_clean(raw);
    }
}

/// Builds the request for the task `description` on the system `os`.
pub fn completion_request(config: &Config, description: &str, os: OsHint) -> (r:
    CompletionRequest)
    ensures
        r@ == request_for(config.api_base@, config.api_key@, description@, os),
{
    let mut url = config.api_base.clone();
    url.append("/completions");
    let mut authorization = String::from_str("Bearer ");
    authorization.append(config.api_key.as_str());
    let mut suffix = String::from_str("\n");
    suffix.append("```");
    CompletionRequest {
        url,
        authorization,
        model: String::from_str("gpt-3.5-turbo-instruct"),
        prompt: build_prompt(description, os),
        max_tokens: 1000,
        temperature: 0,
        top_p: 1,
        stop: String::from_str("```"),
        suffix,
        presence_penalty: 0,
        frequency_penalty: 0,
    }
}

/// Classifies a response by its status and by what was read from its body:
/// `message`, the error message, and `text`, the generated text.
pub fn classify(status: u16, message: Option<String>, text: Option<String>) -> (r: Result<
    CompletionOutcome,
    Fatal,
>)
    ensures
        match r {
            Ok(outcome) => outcome_of(status, message.deep_view(), text.deep_view()) == Ok::<
                CompletionOutcomeView,
                FatalView,
            >(outcome@),
            Err(failure) => outcome_of(status, message.deep_view(), text.deep_view()) == Err::<
                CompletionOutcomeView,
                FatalView,
            >(failure@),
        },
        r is Err <==> !is_client_error(status) && !is_server_error(status) && text is None,
{
    if 400 <= status && status < 500 {
        let reason = match message {
            Some(reason) => reason,
            None => String::from_str(
                "the request was refused; check that OPENAI_API_KEY holds a valid key",
            ),
        };
        Ok(CompletionOutcome::ClientError(reason))
    } else if 500 <= status && status < 600 {
        Ok(CompletionOutcome::ServerError(status))
    } else {
        match text {
            Some(code) => Ok(CompletionOutcome::Success(String::from_str(trim(code.as_str())))),
            None => Err(Fatal::MalformedResponse),
        }
    }
}

/// Classifies a response by its status and its body. The body is read as
/// JSON: the error message of a refused request at `error.message`, the
/// generated text at `choices[0].text`.
pub fn read_response(status: u16, body: &[u8]) -> (r: Result<CompletionOutcome, Fatal>)
    ensures
        match r {
            Ok(outcome) => response_outcome(status, body@) == Ok::<
                CompletionOutcomeView,
                FatalView,
            >(outcome@),
            Err(failure) => response_outcome(status, body@) == Err::<
                CompletionOutcomeView,
                FatalView,
            >(failure@),
        },
        is_client_error(status) ==> r is Ok && r->Ok_0 is ClientError,
        is_server_error(status) ==> r is Ok && r->Ok_0@ == CompletionOutcomeView::ServerError(
            status,
        ),
{
    if 400 <= status && status < 500 {
        classify(status, error_message(body), None)
    } else if 500 <= status && status < 600 {
        classify(status, None, None)
    } else {
        classify(status, None, completion_text(body))
    }
}

impl CompletionOutcome {
    /// The generated code, or the failure that this outcome amounts to.
    pub fn into_code(self) -> (r: Result<String, Fatal>)
        ensures
            match r {
                Ok(code) => code_of(self@) == Ok::<Seq<char>, FatalView>(code@),
                Err(failure) => code_of(self@) == Err::<Seq<char>, FatalView>(failure@),
            },
    {
        match self {
            CompletionOutcome::Success(code) => Ok(code),
            CompletionOutcome::ClientError(message) => Err(Fatal::Api(message)),
            CompletionOutcome::ServerError(status) => Err(Fatal::Server(status)),
        }
    }
}

} // verus!
