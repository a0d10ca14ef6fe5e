//! The conditions that end a run without a result, each with the message it
//! is reported with and the exit code it maps to.

use crate::text::{decimal, decimal_text, occurs_at};
use vstd::prelude::*;
use vstd::string::*;

verus! {

/// A condition that ends the run. None of them is retried.
#[derive(Debug, PartialEq, Eq)]
pub enum Fatal {
    /// The API credential is not set.
    MissingCredential,
    /// The request did not reach the endpoint, or no response came back.
    Transport,
    /// The endpoint refused the request; the text says why.
    Api(String),
    /// The endpoint failed; the number is the status it answered with.
    Server(u16),
    /// The response lacks the generated text.
    MalformedResponse,
    /// The answer to the confirmation question could not be read.
    InputClosed,
    /// The interpreter could not be started.
    SpawnFailed,
    /// The generated command ran and ended with a status other than zero.
    CommandFailed,
    /// The driver reported something the run was not waiting for.
    OutOfTurn,
}

/// A `Fatal` with its text as a sequence of characters.
pub enum FatalView {
    MissingCredential,
    Transport,
    Api(Seq<char>),
    Server(u16),
    MalformedResponse,
    InputClosed,
    SpawnFailed,
    CommandFailed,
    OutOfTurn,
}

impl View for Fatal {
    type V = FatalView;

    open spec fn view(&self) -> FatalView {
        match self {
            Fatal::MissingCredential => FatalView::MissingCredential,
            Fatal::Transport => FatalView::Transport,
            Fatal::Api(message) => FatalView::Api(message@),
            Fatal::Server(status) => FatalView::Server(*status),
            Fatal::MalformedResponse => FatalView::MalformedResponse,
            Fatal::InputClosed => FatalView::InputClosed,
            Fatal::SpawnFailed => FatalView::SpawnFailed,
            Fatal::CommandFailed => FatalView::CommandFailed,
            Fatal::OutOfTurn => FatalView::OutOfTurn,
        }
    }
}

/// The exit code of a run that ends well, or that the user declines.
pub open spec fn exit_success() -> i32 {
    0
}

/// The exit code of a run that ends with `failure`. Every failure maps to 1,
/// a generated command that fails included: the status the command itself
/// ended with is not passed on.
pub open spec fn exit_code_of(failure: FatalView) -> i32 {
    1
}

/// The message `failure` is reported with.
pub open spec fn message_of(failure: FatalView) -> Seq<char> {
    match failure {
        FatalView::MissingCredential =>
            "This program requires an OpenAI API key to run. Please set the OPENAI_API_KEY environment variable."@,
        FatalView::Transport => "Failed to get a response from the completion endpoint."@,
        FatalView::Api(message) => "API error: \""@ + message + "\""@,
        FatalView::Server(status) =>
            "OpenAI is currently experiencing problems. Status code: "@ + decimal(status as nat),
        FatalView::MalformedResponse => "The response holds no generated command."@,
        FatalView::InputClosed => "Couldn't ask question."@,
        FatalView::SpawnFailed => "Failed to execute the generated program."@,
        FatalView::CommandFailed => "The program threw an error."@,
        FatalView::OutOfTurn => "The run was handed an event it was not waiting for."@,
    }
}

/// A refused request is reported with the reason the endpoint gave: the
/// reason stands in the message as it is, between quotation marks.
pub proof fn lemma_refusal_shows_reason(reason: Seq<char>)
    ensures
        occurs_at(message_of(FatalView::Api(reason)), reason, "API error: \""@.len() as int),
{
    let head = "API error: \""@;
    let whole = message_of(FatalView::Api(reason));
    assert(whole.subrange(head.len() as int, (head.len() + reason.len()) as int) =~= reason);
}

impl Fatal {
    /// The exit code the process ends with on this failure.
    pub fn exit_code(&self) -> (r: i32)
        ensures
            r == exit_code_of(self@),
            r != exit_success(),
    {
        1
    }

    /// The message to report this failure with.
    pub fn message(&self) -> (r: String)
        ensures
            r@ == message_of(self@),
    {
        match self {
            Fatal::MissingCredential => String::from_str(
                "This program requires an OpenAI API key to run. Please set the OPENAI_API_KEY environment variable.",
            ),
            Fatal::Transport => String::from_str(
                "Failed to get a response from the completion endpoint.",
            ),
            Fatal::Api(message) => {
                let mut text = String::from_str("API error: \"");
                text.append(message.as_str());
                text.append("\"");
                text
            },
            Fatal::Server(status) => {
                let mut text = String::from_str(
                    "OpenAI is currently experiencing problems. Status code: ",
                );
                let number = decimal_text(*status as u64);
                text.append(number.as_str());
                text
            },
            Fatal::MalformedResponse => String::from_str("The response holds no generated command."),
            Fatal::InputClosed => String::from_str("Couldn't ask question."),
            Fatal::SpawnFailed => String::from_str("Failed to execute the generated program."),
            Fatal::CommandFailed => String::from_str("The program threw an error."),
            Fatal::OutOfTurn => String::from_str(
                "The run was handed an event it was not waiting for.",
            ),
        }
    }
}

} // verus!
