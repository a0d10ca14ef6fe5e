//! The question whether to run the generated command, and the answers to it.

use crate::text::{is_word, lowercase, trim, trimmed};
use vstd::prelude::*;

verus! {

/// What is decided about the generated command.
#[derive(Clone, Copy, Debug, PartialEq, Eq, Structural)]
pub enum Verdict {
    /// Run the command.
    Run,
    /// Do not run it.
    Decline,
    /// Put the question to the user, for the first time or once more.
    Ask,
}

/// What an answer to the question says: `Some(true)` for yes, `Some(false)`
/// for no, `None` where it is neither. White space around the answer and the
/// case of its letters do not count; `y` and `yes` say yes, `n` and `no` say
/// no, and an empty answer takes the default, which is yes.
pub open spec fn recognised(answer: Seq<char>) -> Option<bool> {
    let word = lowercase(trimmed(answer));
    if word.len() == 0 || word == "y"@ || word == "yes"@ {
        Some(true)
    } else if word == "n"@ || word == "no"@ {
        Some(false)
    } else {
        None
    }
}

/// The decision on the command: with `force` the command runs whatever was or
/// was not answered; without it the answer decides, and the question is put
/// as long as no answer is recognised.
pub open spec fn decision(force: bool, answer: Option<Seq<char>>) -> Verdict {
    if force {
        Verdict::Run
    } else {
        match answer {
            None => Verdict::Ask,
            Some(line) => match recognised(line) {
                Some(true) => Verdict::Run,
                Some(false) => Verdict::Decline,
                None => Verdict::Ask,
            },
        }
    }
}

/// Reads an answer to the question.
pub fn interpret_answer(answer: &str) -> (r: Option<bool>)
    ensures
        r == recognised(answer@),
{
    let word = trim(answer);
    if word.is_empty() || is_word(word, "y") || is_word(word, "yes") {
        Some(true)
    } else if is_word(word, "n") || is_word(word, "no") {
        Some(false)
    } else {
        None
    }
}

/// Decides whether to run the command. `answer` is what the user entered,
/// `None` as long as nothing was read. With `force` set no answer is needed:
/// the verdict is `Run` for every `answer`.
pub fn confirmation_gate(force: bool, answer: Option<&str>) -> (r: Verdict)
    ensures
        r == decision(force, answer.deep_view()),
        force ==> r == Verdict::Run,
{
    if force {
        Verdict::Run
    } else {
        match answer {
            None => Verdict::Ask,
            Some(line) => match interpret_answer(line) {
                Some(true) => Verdict::Run,
                Some(false) => Verdict::Decline,
                None => Verdict::Ask,
            },
        }
    }
}

} // verus!
