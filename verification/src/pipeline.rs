//! The run as a state machine: the driver reports what happened outside, and
//! each step says what to show, what to record and what to do next.
//!
//! A run asks the endpoint once, shows the generated command, asks the user
//! unless it is forced, runs the command at most once, and records it in the
//! shell's history only once it has been run.

use crate::completion::{
    code_of, completion_request, is_client_error, is_server_error, read_response, request_for,
    response_outcome, CompletionRequest,
};
use crate::config::{history_entry, Config, ConfigView, HistoryEntry, HistoryEntryView};
use crate::confirm::{confirmation_gate, decision, Verdict};
use crate::execute::{ExecutionResult, ExecutionResultView};
use crate::failure::{exit_code_of, exit_success, message_of, Fatal, FatalView};
use crate::prompt::OsHint;
use crate::text::{join_words, joined};
use vstd::prelude::*;
use vstd::string::*;

verus! {

/// The task as the command line gave it.
#[derive(Debug, PartialEq, Eq)]
pub struct TaskRequest {
    /// What the user wants done, in their own words.
    pub description: String,
    /// The system the command is meant for.
    pub os: OsHint,
    /// Whether to run the command without asking.
    pub force: bool,
}

/// Something that happened outside, reported by the driver.
#[derive(Debug, PartialEq, Eq)]
pub enum Event {
    /// The endpoint answered.
    Responded { status: u16, body: Vec<u8> },
    /// The request failed before any answer came.
    TransportFailed,
    /// The user entered a line in answer to the question.
    Answered(String),
    /// No answer could be read.
    InputClosed,
    /// The interpreter ran the command and ended.
    Ran(ExecutionResult),
    /// The interpreter could not be started.
    SpawnFailed,
}

/// An `Event` with its contents as sequences.
pub enum EventView {
    Responded { status: u16, body: Seq<u8> },
    TransportFailed,
    Answered(Seq<char>),
    InputClosed,
    Ran(ExecutionResultView),
    SpawnFailed,
}

impl View for Event {
    type V = EventView;

    open spec fn view(&self) -> EventView {
        match self {
            Event::Responded { status, body } => EventView::Responded {
                status: *status,
                body: body@,
            },
            Event::TransportFailed => EventView::TransportFailed,
            Event::Answered(line) => EventView::Answered(line@),
            Event::InputClosed => EventView::InputClosed,
            Event::Ran(result) => EventView::Ran(result@),
            Event::SpawnFailed => EventView::SpawnFailed,
        }
    }
}

/// What a notice shows below its message.
#[derive(Debug, PartialEq, Eq)]
pub enum Detail {
    Nothing,
    /// The generated command, to be shown as a script.
    Code(String),
    /// Captured output of the command, to be printed as it is.
    Output(Vec<u8>),
}

/// A `Detail` with its contents as sequences.
pub enum DetailView {
    Nothing,
    Code(Seq<char>),
    Output(Seq<u8>),
}

impl View for Detail {
    type V = DetailView;

    open spec fn view(&self) -> DetailView {
        match self {
            Detail::Nothing => DetailView::Nothing,
            Detail::Code(code) => DetailView::Code(code@),
            Detail::Output(bytes) => DetailView::Output(bytes@),
        }
    }
}

/// What to tell the user at the end of a stage.
#[derive(Debug, PartialEq, Eq)]
pub struct Notice {
    /// Whether the stage went well.
    pub success: bool,
    pub message: String,
    pub detail: Detail,
}

/// A `Notice` with its contents as sequences.
pub struct NoticeView {
    pub success: bool,
    pub message: Seq<char>,
    pub detail: DetailView,
}

impl View for Notice {
    type V = NoticeView;

    open spec fn view(&self) -> NoticeView {
        NoticeView { success: self.success, message: self.message@, detail: self.detail@ }
    }
}

impl DeepView for Notice {
    type V = NoticeView;

    open spec fn deep_view(&self) -> NoticeView {
        self@
    }
}

/// What the driver is to do after a step.
#[derive(Debug, PartialEq, Eq)]
pub enum Next {
    /// Put the question and report the answer.
    Ask,
    /// Hand this command to the interpreter and report how it went.
    Run(String),
    /// End the process with this code.
    Exit(i32),
}

/// A `Next` with its command as a sequence of characters.
pub enum NextView {
    Ask,
    Run(Seq<char>),
    Exit(i32),
}

impl View for Next {
    type V = NextView;

    open spec fn view(&self) -> NextView {
        match self {
            Next::Ask => NextView::Ask,
            Next::Run(code) => NextView::Run(code@),
            Next::Exit(code) => NextView::Exit(*code),
        }
    }
}

/// The answer of the run to one event. The driver shows the notice, then
/// appends the history entry without regard to whether that works, then does
/// what `next` says.
#[derive(Debug, PartialEq, Eq)]
pub struct Step {
    pub notice: Option<Notice>,
    pub record: Option<HistoryEntry>,
    pub next: Next,
}

/// A `Step` with its contents as sequences.
pub struct StepView {
    pub notice: Option<NoticeView>,
    pub record: Option<HistoryEntryView>,
    pub next: NextView,
}

impl View for Step {
    type V = StepView;

    open spec fn view(&self) -> StepView {
        StepView {
            notice: self.notice.deep_view(),
            record: self.record.deep_view(),
            next: self.next@,
        }
    }
}

/// Where a run stands.
#[derive(Debug, PartialEq, Eq)]
pub enum Stage {
    /// The request is out; the response is awaited.
    AwaitingCompletion,
    /// The command is shown and the question put; the answer is awaited.
    AwaitingAnswer(String),
    /// The command is with the interpreter; its end is awaited.
    AwaitingRun(String),
    /// The run is over, with this exit code.
    Finished(i32),
}

/// A `Stage` with its command as a sequence of characters.
pub enum StageView {
    AwaitingCompletion,
    AwaitingAnswer(Seq<char>),
    AwaitingRun(Seq<char>),
    Finished(i32),
}

impl View for Stage {
    type V = StageView;

    open spec fn view(&self) -> StageView {
        match self {
            Stage::AwaitingCompletion => StageView::AwaitingCompletion,
            Stage::AwaitingAnswer(code) => StageView::AwaitingAnswer(code@),
            Stage::AwaitingRun(code) => StageView::AwaitingRun(code@),
            Stage::Finished(code) => StageView::Finished(*code),
        }
    }
}

/// One run: its settings, and where it stands.
pub struct Pipeline {
    pub config: Config,
    /// The user's home directory, `None` where it is not known.
    pub home: Option<String>,
    /// Whether to run the command without asking.
    pub force: bool,
    pub stage: Stage,
}

/// A `Pipeline` with its contents as sequences.
pub struct PipelineView {
    pub config: ConfigView,
    pub home: Option<Seq<char>>,
    pub force: bool,
    pub stage: StageView,
}

impl View for Pipeline {
    type V = PipelineView;

    open spec fn view(&self) -> PipelineView {
        PipelineView {
            config: self.config@,
            home: self.home.deep_view(),
            force: self.force,
            stage: self.stage@,
        }
    }
}

/// The run in the stage `stage`, with the settings of `run`.
pub open spec fn at_stage(run: PipelineView, stage: StageView) -> PipelineView {
    PipelineView { config: run.config, home: run.home, force: run.force, stage }
}

/// A step that shows nothing, records nothing and goes on with `next`.
pub open spec fn silent(next: NextView) -> StepView {
    StepView { notice: None, record: None, next }
}

/// The end of a run on `failure`: the failure's message is shown and the
/// process ends with the failure's code.
pub open spec fn failed(run: PipelineView, failure: FatalView) -> (PipelineView, StepView) {
    (
        at_stage(run, StageView::Finished(exit_code_of(failure))),
        StepView {
            notice: Some(
                NoticeView {
                    success: false,
                    message: message_of(failure),
                    detail: DetailView::Nothing,
                },
            ),
            record: None,
            next: NextView::Exit(exit_code_of(failure)),
        },
    )
}

/// The notice that shows the generated command.
pub open spec fn code_notice(code: Seq<char>) -> NoticeView {
    NoticeView { success: true, message: "Got some code!"@, detail: DetailView::Code(code) }
}

/// What follows the response of the endpoint: on a command, the command is
/// shown and it is decided, with nothing answered yet, whether it runs at
/// once or is put to the user; on anything else the run ends.
pub open spec fn after_response(run: PipelineView, status: u16, body: Seq<u8>) -> (
    PipelineView,
    StepView,
) {
    match response_outcome(status, body) {
        Err(failure) => failed(run, failure),
        Ok(outcome) => match code_of(outcome) {
            Err(failure) => failed(run, failure),
            Ok(code) => match decision(run.force, None) {
                Verdict::Run => (
                    at_stage(run, StageView::AwaitingRun(code)),
                    StepView {
                        notice: Some(code_notice(code)),
                        record: None,
                        next: NextView::Run(code),
                    },
                ),
                _ => (
                    at_stage(run, StageView::AwaitingAnswer(code)),
                    StepView { notice: Some(code_notice(code)), record: None, next: NextView::Ask },
                ),
            },
        },
    }
}

/// What follows an answer, by the decision on it: the command runs, or
/// the run ends with success because the user declined, or the question is
/// put again.
pub open spec fn after_answer(run: PipelineView, code: Seq<char>, line: Seq<char>) -> (
    PipelineView,
    StepView,
) {
    match decision(run.force, Some(line)) {
        Verdict::Run => (at_stage(run, StageView::AwaitingRun(code)), silent(NextView::Run(code))),
        Verdict::Decline => (
            at_stage(run, StageView::Finished(exit_success())),
            silent(NextView::Exit(exit_success())),
        ),
        Verdict::Ask => (run, silent(NextView::Ask)),
    }
}

/// What follows the end of the command: its output is shown, standard output
/// where it succeeded and standard error where it failed, the command is
/// recorded in the history, and the run ends.
pub open spec fn after_run(run: PipelineView, code: Seq<char>, result: ExecutionResultView) -> (
    PipelineView,
    StepView,
) {
    let record = history_entry(run.config, run.home, code);
    if result.success() {
        (
            at_stage(run, StageView::Finished(exit_success())),
            StepView {
                notice: Some(
                    NoticeView {
                        success: true,
                        message: "Command ran successfully"@,
                        detail: DetailView::Output(result.stdout),
                    },
                ),
                record,
                next: NextView::Exit(exit_success()),
            },
        )
    } else {
        (
            at_stage(run, StageView::Finished(exit_code_of(FatalView::CommandFailed))),
            StepView {
                notice: Some(
                    NoticeView {
                        success: false,
                        message: message_of(FatalView::CommandFailed),
                        detail: DetailView::Output(result.stderr),
                    },
                ),
                record,
                next: NextView::Exit(exit_code_of(FatalView::CommandFailed)),
            },
        )
    }
}

/// The run after `event`, and the step that answers it. An event that the
/// stage is not waiting for ends the run as a failure; once the run is over,
/// every event is answered with the exit code again.
pub open spec fn advanced(run: PipelineView, event: EventView) -> (PipelineView, StepView) {
    match run.stage {
        StageView::AwaitingCompletion => match event {
            EventView::Responded { status, body } => after_response(run, status, body),
            EventView::TransportFailed => failed(run, FatalView::Transport),
            _ => failed(run, FatalView::OutOfTurn),
        },
        StageView::AwaitingAnswer(code) => match event {
            EventView::Answered(line) => after_answer(run, code, line),
            EventView::InputClosed => failed(run, FatalView::InputClosed),
            _ => failed(run, FatalView::OutOfTurn),
        },
        StageView::AwaitingRun(code) => match event {
            EventView::Ran(result) => after_run(run, code, result),
            EventView::SpawnFailed => failed(run, FatalView::SpawnFailed),
            _ => failed(run, FatalView::OutOfTurn),
        },
        StageView::Finished(code) => (run, silent(NextView::Exit(code))),
    }
}

impl TaskRequest {
    /// The task for the words of the command line: the description is the
    /// words joined by single spaces.
    pub fn from_words(words: &Vec<String>, os: OsHint, force: bool) -> (r: TaskRequest)
        ensures
            r.description@ == joined(words.deep_view()),
            r.os == os,
            r.force == force,
    {
        TaskRequest { description: join_words(words), os, force }
    }
}

impl Pipeline {
    /// Starts a run for `task`: returns the run, which now awaits the
    /// response, and the request to send.
    pub fn start(config: Config, home: Option<String>, task: &TaskRequest) -> (r: (
        Pipeline,
        CompletionRequest,
    ))
        ensures
            r.0@ == (PipelineView {
                config: config@,
                home: home.deep_view(),
                force: task.force,
                stage: StageView::AwaitingCompletion,
            }),
            r.1@ == request_for(config.api_base@, config.api_key@, task.description@, task.os),
    {
        let request = completion_request(&config, task.description.as_str(), task.os);
        (Pipeline { config, home, force: task.force, stage: Stage::AwaitingCompletion }, request)
    }

    /// Ends the run on `failure`.
    fn fail(self, failure: Fatal) -> (r: (Pipeline, Step))
        ensures
            r.0@ == failed(self@, failure@).0,
            r.1@ == failed(self@, failure@).1,
    {
        let code = failure.exit_code();
        let notice = Notice { success: false, message: failure.message(), detail: Detail::Nothing };
        (
            Pipeline {
                config: self.config,
                home: self.home,
                force: self.force,
                stage: Stage::Finished(code),
            },
            Step { notice: Some(notice), record: None, next: Next::Exit(code) },
        )
    }

    /// Goes on from the response of the endpoint.
    fn on_response(self, status: u16, body: &Vec<u8>) -> (r: (Pipeline, Step))
        ensures
            r.0@ == after_response(self@, status, body@).0,
            r.1@ == after_response(self@, status, body@).1,
    {
        match read_response(status, body.as_slice()) {
            Err(failure) => self.fail(failure),
            Ok(outcome) => match outcome.into_code() {
                Err(failure) => self.fail(failure),
                Ok(code) => {
                    let notice = Notice {
                        success: true,
                        message: String::from_str("Got some code!"),
                        detail: Detail::Code(code.clone()),
                    };
                    if let Verdict::Run = confirmation_gate(self.force, None) {
                        (
                            Pipeline {
                                config: self.config,
                                home: self.home,
                                force: self.force,
                                stage: Stage::AwaitingRun(code.clone()),
                            },
                            Step { notice: Some(notice), record: None, next: Next::Run(code) },
                        )
                    } else {
                        (
                            Pipeline {
                                config: self.config,
                                home: self.home,
                                force: self.force,
                                stage: Stage::AwaitingAnswer(code),
                            },
                            Step { notice: Some(notice), record: None, next: Next::Ask },
                        )
                    }
                },
            },
        }
    }

    /// Goes on from an answer to the question about `code`.
    fn on_answer(self, code: String, line: &str) -> (r: (Pipeline, Step))
        requires
            self.stage@ == StageView::AwaitingAnswer(code@),
        ensures
            r.0@ == after_answer(self@, code@, line@).0,
            r.1@ == after_answer(self@, code@, line@).1,
    {
        match confirmation_gate(self.force, Some(line)) {
            Verdict::Run => (
                Pipeline {
                    config: self.config,
                    home: self.home,
                    force: self.force,
                    stage: Stage::AwaitingRun(code.clone()),
                },
                Step { notice: None, record: None, next: Next::Run(code) },
            ),
            Verdict::Decline => (
                Pipeline {
                    config: self.config,
                    home: self.home,
                    force: self.force,
                    stage: Stage::Finished(0),
                },
                Step { notice: None, record: None, next: Next::Exit(0) },
            ),
            Verdict::Ask => (
                Pipeline {
                    config: self.config,
                    home: self.home,
                    force: self.force,
                    stage: Stage::AwaitingAnswer(code),
                },
                Step { notice: None, record: None, next: Next::Ask },
            ),
        }
    }

    /// Goes on from the end of the command `code`.
    fn on_run(self, code: &str, result: ExecutionResult) -> (r: (Pipeline, Step))
        ensures
            r.0@ == after_run(self@, code@, result@).0,
            r.1@ == after_run(self@, code@, result@).1,
    {
        let home = match &self.home {
            Some(directory) => Some(directory.as_str()),
            None => None,
        };
        let record = self.config.write_to_history(home, code);
        let success = result.success();
        let (exit, message, output) = if success {
            (0, String::from_str("Command ran successfully"), result.stdout)
        } else {
            (Fatal::CommandFailed.exit_code(), Fatal::CommandFailed.message(), result.stderr)
        };
        (
            Pipeline {
                config: self.config,
                home: self.home,
                force: self.force,
                stage: Stage::Finished(exit),
            },
            Step {
                notice: Some(Notice { success, message, detail: Detail::Output(output) }),
                record,
                next: Next::Exit(exit),
            },
        )
    }

    /// Takes the run one event further: returns the run after `event` and the
    /// step that answers it.
    pub fn advance(self, event: Event) -> (r: (Pipeline, Step))
        ensures
            r.0@ == advanced(self@, event@).0,
            r.1@ == advanced(self@, event@).1,
    {
        let Pipeline { config, home, force, stage } = self;
        match stage {
            Stage::AwaitingCompletion => {
                let run = Pipeline { config, home, force, stage: Stage::AwaitingCompletion };
                match event {
                    Event::Responded { status, body } => run.on_response(status, &body),
                    Event::TransportFailed => run.fail(Fatal::Transport),
                    _ => run.fail(Fatal::OutOfTurn),
                }
            },
            Stage::AwaitingAnswer(code) => {
                let run = Pipeline { config, home, force, stage: Stage::AwaitingAnswer(code.clone()) };
                match event {
                    Event::Answered(line) => run.on_answer(code, line.as_str()),
                    Event::InputClosed => run.fail(Fatal::InputClosed),
                    _ => run.fail(Fatal::OutOfTurn),
                }
            },
            Stage::AwaitingRun(code) => {
                let run = Pipeline { config, home, force, stage: Stage::AwaitingRun(code.clone()) };
                match event {
                    Event::Ran(result) => run.on_run(code.as_str(), result),
                    Event::SpawnFailed => run.fail(Fatal::SpawnFailed),
                    _ => run.fail(Fatal::OutOfTurn),
                }
            },
            Stage::Finished(code) => (
                Pipeline { config, home, force, stage: Stage::Finished(code) },
                Step { notice: None, record: None, next: Next::Exit(code) },
            ),
        }
    }
}

/// A run ends with one of two codes, and a failure is always told: a step
/// that ends a run which was still going exits with zero or with one, and
/// where it exits with one it carries a notice that reports a failure.
pub proof fn lemma_exit_codes(run: PipelineView, event: EventView)
    requires
        !(run.stage is Finished),
        advanced(run, event).1.next is Exit,
    ensures
        advanced(run, event).0.stage == StageView::Finished(advanced(run, event).1.next->Exit_0),
        advanced(run, event).1.next == NextView::Exit(0) || advanced(run, event).1.next
            == NextView::Exit(1),
        advanced(run, event).1.next == NextView::Exit(1) ==> (advanced(
            run,
            event,
        ).1.notice matches Some(notice) && !notice.success),
        advanced(run, event).1.next == NextView::Exit(0) ==> (event is Answered || (
        event matches EventView::Ran(result) && result.success())),
{
}

/// An error status ends the run whatever the body holds: a response with a
/// status from 400 to 599 is answered with a failure notice and exit code
/// one, and the command is neither shown nor run.
pub proof fn lemma_error_status_ends_run(run: PipelineView, status: u16, body: Seq<u8>)
    requires
        run.stage is AwaitingCompletion,
        is_client_error(status) || is_server_error(status),
    ensures
        advanced(run, EventView::Responded { status, body }).1.next == NextView::Exit(1),
        advanced(run, EventView::Responded { status, body }).1.record is None,
        advanced(run, EventView::Responded { status, body }).1.notice matches Some(notice)
            && !notice.success && notice.detail is Nothing,
        is_server_error(status) ==> advanced(
            run,
            EventView::Responded { status, body },
        ).1.notice->Some_0.message == message_of(FatalView::Server(status)),
{
}

/// The run after the events `events`, taken in order.
pub open spec fn after(run: PipelineView, events: Seq<EventView>) -> PipelineView
    decreases events.len(),
{
    if events.len() == 0 {
        run
    } else {
        advanced(after(run, events.drop_last()), events.last()).0
    }
}

/// The step that answers the event at `index`, where the run has taken the
/// events before it.
pub open spec fn step_at(run: PipelineView, events: Seq<EventView>, index: int) -> StepView {
    advanced(after(run, events.take(index)), events[index]).1
}

/// How far a stage is along the run.
pub open spec fn progress(stage: StageView) -> nat {
    match stage {
        StageView::AwaitingCompletion => 0,
        StageView::AwaitingAnswer(_) => 1,
        StageView::AwaitingRun(_) => 2,
        StageView::Finished(_) => 3,
    }
}

/// The run after the first `count` events is the run after one fewer, taken
/// one event further.
proof fn lemma_after_next(run: PipelineView, events: Seq<EventView>, count: int)
    requires
        0 < count <= events.len(),
    ensures
        after(run, events.take(count)) == advanced(
            after(run, events.take(count - 1)),
            events[count - 1],
        ).0,
{
    assert(events.take(count).drop_last() =~= events.take(count - 1));
}

/// No event changes the settings of a run, and none takes it back to an
/// earlier stage.
pub proof fn lemma_step_goes_forward(run: PipelineView, event: EventView)
    ensures
        advanced(run, event).0.config == run.config,
        advanced(run, event).0.home == run.home,
        advanced(run, event).0.force == run.force,
        progress(run.stage) <= progress(advanced(run, event).0.stage),
{
}

/// Along any sequence of events a run never falls back: the stage after more
/// events is at least as far along as the stage after fewer.
pub proof fn lemma_progress_never_falls(
    run: PipelineView,
    events: Seq<EventView>,
    fewer: int,
    more: int,
)
    requires
        0 <= fewer <= more <= events.len(),
    ensures
        progress(after(run, events.take(fewer)).stage) <= progress(
            after(run, events.take(more)).stage,
        ),
        after(run, events.take(more)).config == run.config,
        after(run, events.take(more)).home == run.home,
        after(run, events.take(more)).force == run.force,
    decreases more,
{
    if more == 0 {
        assert(events.take(0) =~= Seq::<EventView>::empty());
    } else {
        lemma_after_next(run, events, more);
        lemma_step_goes_forward(after(run, events.take(more - 1)), events[more - 1]);
        if fewer < more {
            lemma_progress_never_falls(run, events, fewer, more - 1);
        } else {
            lemma_progress_never_falls(run, events, more - 1, more - 1);
        }
    }
}

/// What the user has answered when `event` arrives: the line, if the event
/// is an answer, and nothing otherwise.
pub open spec fn answer_in(event: EventView) -> Option<Seq<char>> {
    match event {
        EventView::Answered(line) => Some(line),
        _ => None,
    }
}

/// The command runs only on consent: a step asks for a run only where the
/// decision is to run, in answer to the response of the endpoint or to a
/// line the user entered.
pub proof fn lemma_run_needs_consent(run: PipelineView, events: Seq<EventView>, index: int)
    requires
        0 <= index < events.len(),
        step_at(run, events, index).next is Run,
    ensures
        events[index] is Responded || events[index] is Answered,
        decision(run.force, answer_in(events[index])) == Verdict::Run,
{
    lemma_progress_never_falls(run, events, index, index);
}

/// A forced run never asks: whatever stage it is taken from and whatever
/// happens, no step of it puts the question.
pub proof fn lemma_forced_run_never_asks(run: PipelineView, events: Seq<EventView>, index: int)
    requires
        run.force,
        0 <= index < events.len(),
    ensures
        !(step_at(run, events, index).next is Ask),
{
    lemma_progress_never_falls(run, events, index, index);
}

/// The command runs at most once: no two steps of a run both ask for it.
pub proof fn lemma_command_runs_at_most_once(
    run: PipelineView,
    events: Seq<EventView>,
    first: int,
    second: int,
)
    requires
        0 <= first < second < events.len(),
        step_at(run, events, first).next is Run,
    ensures
        !(step_at(run, events, second).next is Run),
{
    lemma_after_next(run, events, first + 1);
    lemma_progress_never_falls(run, events, first + 1, second);
}

/// History is recorded only once the command has run: in a run taken from its
/// start, a step that records an entry answers the end of the command, comes
/// directly after the step that asked for the run, and records that very
/// command.
pub proof fn lemma_record_follows_run(run: PipelineView, events: Seq<EventView>, index: int)
    requires
        run.stage is AwaitingCompletion,
        0 <= index < events.len(),
        step_at(run, events, index).record is Some,
    ensures
        events[index] is Ran,
        0 < index,
        step_at(run, events, index - 1).next matches NextView::Run(code) && step_at(
            run,
            events,
            index,
        ).record == history_entry(run.config, run.home, code),
{
    lemma_progress_never_falls(run, events, index, index);
    if index == 0 {
        assert(events.take(0) =~= Seq::<EventView>::empty());
    } else {
        lemma_after_next(run, events, index);
        lemma_progress_never_falls(run, events, index - 1, index - 1);
    }
}

/// History is recorded at most once: no two steps of a run both record an
/// entry.
pub proof fn lemma_records_at_most_once(
    run: PipelineView,
    events: Seq<EventView>,
    first: int,
    second: int,
)
    requires
        0 <= first < second < events.len(),
        step_at(run, events, first).record is Some,
    ensures
        step_at(run, events, second).record is None,
{
    lemma_after_next(run, events, first + 1);
    lemma_progress_never_falls(run, events, first + 1, second);
}

/// The endpoint is heard once: in a run taken from its start only the first
/// event can bring a command, and only if it is a response.
pub proof fn lemma_one_outcome(run: PipelineView, events: Seq<EventView>, index: int)
    requires
        run.stage is AwaitingCompletion,
        0 <= index < events.len(),
        step_at(run, events, index).notice matches Some(notice) && notice.detail is Code,
    ensures
        index == 0,
        events[0] is Responded,
{
    if index == 0 {
        assert(events.take(0) =~= Seq::<EventView>::empty());
    } else {
        assert(events.take(1) =~= seq![events[0]]);
        assert(events.take(1).drop_last() =~= Seq::<EventView>::empty());
        lemma_step_goes_forward(run, events[0]);
        lemma_progress_never_falls(run, events, 1, index);
    }
}

/// An exit is final: once a step has ended the run with a code, every later
/// step shows nothing, records nothing and ends the run with that code.
pub proof fn lemma_exit_is_final(
    run: PipelineView,
    events: Seq<EventView>,
    index: int,
    later: int,
)
    requires
        0 <= index < later < events.len(),
        step_at(run, events, index).next is Exit,
    ensures
        step_at(run, events, later) == silent(step_at(run, events, index).next),
    decreases later - index,
{
    lemma_after_next(run, events, index + 1);
    if later > index + 1 {
        lemma_exit_is_final(run, events, index, later - 1);
        lemma_after_next(run, events, later);
    }
}

} // verus!
