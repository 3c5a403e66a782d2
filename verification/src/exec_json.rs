//! A run of `exec --json`, from the prompt to the exit code.
//!
//! The run alternates decisions and outside work: it reads a prompt, spawns the app-server,
//! starts a project, forwards its events as a JSONL stream, and shuts everything down again. The
//! decisions are made here. [`ExecJsonSession::start`] and [`ExecJsonSession::step`] return what
//! is to be done next; whoever does it hands the result back to `step`.

use std::path::PathBuf;

use vstd::prelude::*;

use crate::exec;
use crate::exec::ExecRunConfig;
use crate::exec::ProjectFacts;
use crate::exec::RunPlan;
use crate::exec::StartedProject;
use crate::exec_emitter;
use crate::exec_emitter::ExecEventProgress;
use crate::exec_emitter::ExecJsonlEmitter;
use crate::exec_events;
use crate::exec_events::ExecJsonlEvent;
use crate::exec_events::JsonlEvent;
use crate::exec_events::PotterProjectCompletedEvent;
use crate::exec_events::PotterProjectCompletedOutcome;
use crate::exec_events::PotterProjectStartedEvent;
use crate::launch;
use crate::potter_protocol::PotterEventMode;
use crate::potter_protocol::ProjectStartParams;
use crate::protocol::EventMsg;
use crate::rounds;
use crate::text;

verus! {

/// Outside work that the run asks for.
#[derive(Debug)]
pub enum ExecJsonAction {
    /// Read the prompt from standard input.
    ReadPrompt,
    /// Write one `error` event, outside of the session's own stream; whether that works does not
    /// matter.
    ReportError { message: String },
    /// Spawn the app-server with these arguments.
    Spawn { args: Vec<String> },
    /// Initialize the app-server.
    Initialize,
    /// Start a project.
    StartProject { params: ProjectStartParams },
    /// Write an event to the stream.
    Write { event: ExecJsonlEvent },
    /// Read the next agent event.
    ReadEvent,
    /// Translate an agent event into events of the stream. A round that just started makes the
    /// translator forget the round before it.
    Translate { msg: EventMsg, round_started: bool },
    /// Interrupt the project; whether that works does not matter.
    Interrupt { project_id: String },
    /// Look up the git commit of the project's working directory, and the time since the project
    /// started.
    ResolveEnd,
    /// Shut the app-server down; whether that works does not matter.
    Shutdown,
    /// The run is over.
    Exit { code: i32 },
}

/// The result of outside work.
#[derive(Debug)]
pub enum ExecJsonInput {
    /// Of `ReadPrompt`.
    Prompt(Result<String, String>),
    /// Of `ReportError`, `Interrupt` and `Shutdown`.
    Done,
    /// Of `Spawn`.
    Spawned(Result<(), String>),
    /// Of `Initialize`.
    Initialized(Result<(), String>),
    /// Of `StartProject`: the project, and the events that came before the answer.
    Started(Result<(StartedProject, Vec<EventMsg>), String>),
    /// Of `Write`.
    Written(Result<(), String>),
    /// Of `ReadEvent`: nothing when the stream is closed.
    Event(Result<Option<EventMsg>, String>),
    /// Of `Translate`.
    Translated(Vec<ExecJsonlEvent>),
    /// Of `ResolveEnd`.
    Ended { git_commit_end: String, duration_secs: u64 },
}

/// What a group of writes is for.
#[derive(Debug)]
pub enum WriteGoal {
    /// To announce the project.
    Started,
    /// To forward an agent event.
    Translated { round_finished: bool },
    /// To give up for a reason.
    Failed { message: String },
    /// To report how the project ended.
    Completed { outcome: PotterProjectCompletedOutcome },
}

/// What the run is waiting for.
#[derive(Debug)]
pub enum ExecJsonPhase {
    ReadPrompt,
    Spawn,
    Initialize,
    Start,
    /// Shutting down because initializing failed; the reason is still to be reported.
    ShutdownToReport { message: String },
    /// Reporting why no project was started, with nothing left to shut down.
    Report,
    /// Reporting why no project was started, before shutting down.
    ReportToShutdown,
    Write { current: ExecJsonlEvent, queue: Vec<ExecJsonlEvent>, goal: WriteGoal },
    ReadEvent,
    Translate { round_finished: bool },
    Interrupt { message: String },
    ResolveEnd { outcome: PotterProjectCompletedOutcome, message: Option<String> },
    Shutdown { code: i32 },
    Exited { code: i32 },
}

/// A run of `exec --json`.
pub struct ExecJsonSession {
    config: ExecRunConfig,
    workdir: PathBuf,
    prompt: String,
    project: StartedProject,
    pending: Vec<EventMsg>,
    emitter: ExecJsonlEmitter,
    phase: ExecJsonPhase,
    trace: Ghost<JsonTrace>,
}

/// What a run has done to its stream so far.
pub struct JsonTrace {
    /// Every event that was to be written, reports included.
    pub requested: Seq<JsonlEvent>,
    /// Every event of the session's stream that was written.
    pub written: Seq<JsonlEvent>,
    /// The outcome whose report was written.
    pub completed: Option<PotterProjectCompletedOutcome>,
}

/// The mathematical counterpart of [`ExecJsonAction`].
pub enum JsonAction {
    ReadPrompt,
    ReportError { message: Seq<char> },
    Spawn { args: Seq<Seq<char>> },
    Initialize,
    StartProject {
        user_message: Seq<char>,
        cwd: Option<PathBuf>,
        rounds: Option<u32>,
        strict_rounds: bool,
        event_mode: Option<PotterEventMode>,
    },
    Write { event: JsonlEvent },
    ReadEvent,
    Translate { msg: EventMsg, round_started: bool },
    Interrupt { project_id: Seq<char> },
    ResolveEnd,
    Shutdown,
    Exit { code: i32 },
}

/// The mathematical counterpart of [`ExecJsonInput`].
pub enum JsonInput {
    Prompt(Result<Seq<char>, Seq<char>>),
    Done,
    Spawned(Result<(), Seq<char>>),
    Initialized(Result<(), Seq<char>>),
    Started(Result<(ProjectFacts, Seq<EventMsg>), Seq<char>>),
    Written(Result<(), Seq<char>>),
    Event(Result<Option<EventMsg>, Seq<char>>),
    Translated(Seq<JsonlEvent>),
    Ended { git_commit_end: Seq<char>, duration_secs: u64 },
}

/// The mathematical counterpart of [`WriteGoal`].
pub enum JsonGoal {
    Started,
    Translated { round_finished: bool },
    Failed { message: Seq<char> },
    Completed { outcome: PotterProjectCompletedOutcome },
}

/// The mathematical counterpart of [`ExecJsonPhase`].
pub enum JsonPhase {
    ReadPrompt,
    Spawn,
    Initialize,
    Start,
    ShutdownToReport { message: Seq<char> },
    Report,
    ReportToShutdown,
    Write { current: JsonlEvent, queue: Seq<JsonlEvent>, goal: JsonGoal },
    ReadEvent,
    Translate { round_finished: bool },
    Interrupt { message: Seq<char> },
    ResolveEnd { outcome: PotterProjectCompletedOutcome, message: Option<Seq<char>> },
    Shutdown { code: i32 },
    Exited { code: i32 },
}

/// The state of a run, mathematically.
pub struct JsonState {
    pub plan: RunPlan,
    pub prompt: Seq<char>,
    pub project: ProjectFacts,
    pub pending: Seq<EventMsg>,
    pub emitter: ExecJsonlEmitter,
    pub phase: JsonPhase,
    pub trace: JsonTrace,
}

impl View for ExecJsonAction {
    type V = JsonAction;

    open spec fn view(&self) -> JsonAction {
        match *self {
            ExecJsonAction::ReadPrompt => JsonAction::ReadPrompt,
            ExecJsonAction::ReportError { message } => JsonAction::ReportError {
                message: message@,
            },
            ExecJsonAction::Spawn { args } => JsonAction::Spawn { args: text::texts(args@) },
            ExecJsonAction::Initialize => JsonAction::Initialize,
            ExecJsonAction::StartProject { params } => JsonAction::StartProject {
                user_message: params.user_message@,
                cwd: params.cwd,
                rounds: params.rounds,
                strict_rounds: params.strict_rounds,
                event_mode: params.event_mode,
            },
            ExecJsonAction::Write { event } => JsonAction::Write { event: event@ },
            ExecJsonAction::ReadEvent => JsonAction::ReadEvent,
            ExecJsonAction::Translate { msg, round_started } => JsonAction::Translate {
                msg,
                round_started,
            },
            ExecJsonAction::Interrupt { project_id } => JsonAction::Interrupt {
                project_id: project_id@,
            },
            ExecJsonAction::ResolveEnd => JsonAction::ResolveEnd,
            ExecJsonAction::Shutdown => JsonAction::Shutdown,
            ExecJsonAction::Exit { code } => JsonAction::Exit { code },
        }
    }
}

impl View for ExecJsonInput {
    type V = JsonInput;

    open spec fn view(&self) -> JsonInput {
        match *self {
            ExecJsonInput::Prompt(r) => JsonInput::Prompt(
                match r {
                    Ok(s) => Ok(s@),
                    Err(e) => Err(e@),
                },
            ),
            ExecJsonInput::Done => JsonInput::Done,
            ExecJsonInput::Spawned(r) => JsonInput::Spawned(exec::failure_text(r)),
            ExecJsonInput::Initialized(r) => JsonInput::Initialized(exec::failure_text(r)),
            ExecJsonInput::Started(r) => JsonInput::Started(
                match r {
                    Ok((project, events)) => Ok((project@, events@)),
                    Err(e) => Err(e@),
                },
            ),
            ExecJsonInput::Written(r) => JsonInput::Written(exec::failure_text(r)),
            ExecJsonInput::Event(r) => JsonInput::Event(exec::failure_text(r)),
            ExecJsonInput::Translated(events) => JsonInput::Translated(
                exec_emitter::event_views(events@),
            ),
            ExecJsonInput::Ended { git_commit_end, duration_secs } => JsonInput::Ended {
                git_commit_end: git_commit_end@,
                duration_secs,
            },
        }
    }
}

impl View for WriteGoal {
    type V = JsonGoal;

    open spec fn view(&self) -> JsonGoal {
        match *self {
            WriteGoal::Started => JsonGoal::Started,
            WriteGoal::Translated { round_finished } => JsonGoal::Translated { round_finished },
            WriteGoal::Failed { message } => JsonGoal::Failed { message: message@ },
            WriteGoal::Completed { outcome } => JsonGoal::Completed { outcome },
        }
    }
}

impl View for ExecJsonPhase {
    type V = JsonPhase;

    open spec fn view(&self) -> JsonPhase {
        match *self {
            ExecJsonPhase::ReadPrompt => JsonPhase::ReadPrompt,
            ExecJsonPhase::Spawn => JsonPhase::Spawn,
            ExecJsonPhase::Initialize => JsonPhase::Initialize,
            ExecJsonPhase::Start => JsonPhase::Start,
            ExecJsonPhase::ShutdownToReport { message } => JsonPhase::ShutdownToReport {
                message: message@,
            },
            ExecJsonPhase::Report => JsonPhase::Report,
            ExecJsonPhase::ReportToShutdown => JsonPhase::ReportToShutdown,
            ExecJsonPhase::Write { current, queue, goal } => JsonPhase::Write {
                current: current@,
                queue: exec_emitter::event_views(queue@),
                goal: goal@,
            },
            ExecJsonPhase::ReadEvent => JsonPhase::ReadEvent,
            ExecJsonPhase::Translate { round_finished } => JsonPhase::Translate { round_finished },
            ExecJsonPhase::Interrupt { message } => JsonPhase::Interrupt { message: message@ },
            ExecJsonPhase::ResolveEnd { outcome, message } => JsonPhase::ResolveEnd {
                outcome,
                message: text::opt_text(message),
            },
            ExecJsonPhase::Shutdown { code } => JsonPhase::Shutdown { code },
            ExecJsonPhase::Exited { code } => JsonPhase::Exited { code },
        }
    }
}

impl View for ExecJsonSession {
    type V = JsonState;

    closed spec fn view(&self) -> JsonState {
        JsonState {
            plan: exec::plan_of(self.config, self.workdir),
            prompt: self.prompt@,
            project: self.project@,
            pending: self.pending@,
            emitter: self.emitter,
            phase: self.phase@,
            trace: self.trace@,
        }
    }
}

/// A run that has done nothing yet.
pub open spec fn fresh(plan: RunPlan) -> JsonState {
    JsonState {
        plan,
        prompt: seq![],
        project: ProjectFacts {
            project_id: seq![],
            working_dir: seq![],
            project_dir: seq![],
            progress_file: seq![],
            git_commit_start: seq![],
            git_branch: None,
            rounds_total: 0,
        },
        pending: seq![],
        emitter: ExecJsonlEmitter {
            json_turn_open: false,
            round_in_progress: false,
            rounds_run: 0,
        },
        phase: JsonPhase::ReadPrompt,
        trace: JsonTrace { requested: seq![], written: seq![], completed: None },
    }
}

impl JsonState {
    /// In another phase.
    pub open spec fn at(self, phase: JsonPhase) -> JsonState {
        JsonState { phase, ..self }
    }

    /// With one more event that is to be written.
    pub open spec fn requesting(self, event: JsonlEvent) -> JsonState {
        JsonState {
            trace: JsonTrace { requested: self.trace.requested.push(event), ..self.trace },
            ..self
        }
    }

    /// Report why no project was started, as the only event there is.
    pub open spec fn report(self, message: Seq<char>, phase: JsonPhase) -> (JsonState, JsonAction) {
        (
            self.requesting(JsonlEvent::Error { message }).at(phase),
            JsonAction::ReportError { message },
        )
    }

    /// The prompt is known: check it and the round budget, and go on.
    pub open spec fn with_prompt(self, prompt: Seq<char>) -> (JsonState, JsonAction) {
        if exec::is_blank(prompt) {
            self.report("prompt is empty"@, JsonPhase::Report)
        } else if self.plan.rounds > u32::MAX {
            self.report(rounds::round_budget_message(self.plan.rounds), JsonPhase::Report)
        } else {
            (
                JsonState { prompt, ..self }.at(JsonPhase::Spawn),
                JsonAction::Spawn {
                    args: launch::app_server_args(
                        self.plan.codex_bin,
                        self.plan.rounds,
                        self.plan.backend_launch,
                        self.plan.potter_xmodel,
                        self.plan.strict_rounds,
                        self.plan.upstream_cli_args,
                    ),
                },
            )
        }
    }

    /// Write `event`, and `queue` after it.
    pub open spec fn write(
        self,
        event: JsonlEvent,
        queue: Seq<JsonlEvent>,
        goal: JsonGoal,
    ) -> (JsonState, JsonAction) {
        (
            self.requesting(event).at(JsonPhase::Write { current: event, queue, goal }),
            JsonAction::Write { event },
        )
    }

    /// Give up for the reason `message`.
    pub open spec fn fail(self, message: Seq<char>) -> (JsonState, JsonAction) {
        let events = self.emitter.failure_events(message);
        self.write(events[0], events.skip(1), JsonGoal::Failed { message })
    }

    /// Shut down, and exit with `code`.
    pub open spec fn shut_down(self, code: i32) -> (JsonState, JsonAction) {
        (self.at(JsonPhase::Shutdown { code }), JsonAction::Shutdown)
    }

    /// Collect what the final report needs.
    pub open spec fn resolve_end(
        self,
        outcome: PotterProjectCompletedOutcome,
        message: Option<Seq<char>>,
    ) -> (JsonState, JsonAction) {
        (self.at(JsonPhase::ResolveEnd { outcome, message }), JsonAction::ResolveEnd)
    }

    /// An agent event arrived.
    pub open spec fn handle(self, msg: EventMsg) -> (JsonState, JsonAction) {
        match msg {
            EventMsg::RequestUserInput(ev) => self.fail(
                exec_emitter::user_input_failure(ev.call_id@),
            ),
            EventMsg::ElicitationRequest(ev) => self.fail(
                exec_emitter::elicitation_failure(ev.server_name@, ev.id@),
            ),
            EventMsg::PotterProjectCompleted { outcome } => self.resolve_end(
                exec_events::reported(outcome).0,
                exec_events::reported(outcome).1,
            ),
            EventMsg::PotterRoundStarted { .. } => (
                JsonState { emitter: self.emitter.with_round_started(), ..self }.at(
                    JsonPhase::Translate { round_finished: false },
                ),
                JsonAction::Translate { msg, round_started: true },
            ),
            _ => (
                self.at(JsonPhase::Translate { round_finished: msg is PotterRoundFinished }),
                JsonAction::Translate { msg, round_started: false },
            ),
        }
    }

    /// Take the next agent event: those that came before the project was started first.
    pub open spec fn read_on(self) -> (JsonState, JsonAction) {
        if self.pending.len() > 0 {
            JsonState { pending: self.pending.skip(1), ..self }.handle(self.pending[0])
        } else {
            (self.at(JsonPhase::ReadEvent), JsonAction::ReadEvent)
        }
    }

    /// Everything that was to be written for `goal` was written.
    pub open spec fn wrote(self, goal: JsonGoal) -> (JsonState, JsonAction) {
        match goal {
            JsonGoal::Started => self.read_on(),
            JsonGoal::Translated { round_finished } => if round_finished {
                JsonState { emitter: self.emitter.with_round_finished(), ..self }.read_on()
            } else {
                self.read_on()
            },
            JsonGoal::Failed { message } => (
                JsonState { emitter: self.emitter.closed(), ..self }.at(
                    JsonPhase::Interrupt { message },
                ),
                JsonAction::Interrupt { project_id: self.project.project_id },
            ),
            JsonGoal::Completed { outcome } => JsonState {
                trace: JsonTrace { completed: Some(outcome), ..self.trace },
                ..self
            }.shut_down(exec_events::exit_code(outcome)),
        }
    }

    /// Write `events`, if there are any, and go on.
    pub open spec fn write_all(self, events: Seq<JsonlEvent>, goal: JsonGoal) -> (
        JsonState,
        JsonAction,
    ) {
        if events.len() > 0 {
            self.write(events[0], events.skip(1), goal)
        } else {
            self.wrote(goal)
        }
    }

    /// `event` was written.
    pub open spec fn with_written(self, event: JsonlEvent) -> JsonState {
        JsonState {
            emitter: self.emitter.observed(event),
            trace: JsonTrace { written: self.trace.written.push(event), ..self.trace },
            ..self
        }
    }

    /// The project was started.
    pub open spec fn with_project(self, project: ProjectFacts, pending: Seq<EventMsg>) -> (
        JsonState,
        JsonAction,
    ) {
        JsonState { project, pending, ..self }.write(
            JsonlEvent::ProjectStarted {
                working_dir: project.working_dir,
                project_dir: project.project_dir,
                progress_file: project.progress_file,
                user_message: self.prompt,
                git_commit_start: project.git_commit_start,
                git_branch: project.git_branch,
            },
            seq![],
            JsonGoal::Started,
        )
    }

    /// Report how the project ended.
    pub open spec fn complete(
        self,
        outcome: PotterProjectCompletedOutcome,
        message: Option<Seq<char>>,
        git_commit_end: Seq<char>,
        duration_secs: u64,
    ) -> (JsonState, JsonAction) {
        self.write(
            JsonlEvent::ProjectCompleted {
                outcome,
                message,
                rounds_run: self.emitter.rounds_run,
                rounds_total: self.project.rounds_total,
                duration_secs,
                progress_file: self.project.progress_file,
                git_commit_start: self.project.git_commit_start,
                git_commit_end,
                git_branch: self.project.git_branch,
            },
            seq![],
            JsonGoal::Completed { outcome },
        )
    }

    /// `event` could not be written.
    pub open spec fn write_failed(self, goal: JsonGoal, cause: Seq<char>) -> (
        JsonState,
        JsonAction,
    ) {
        match goal {
            JsonGoal::Translated { .. } => self.fail("write exec jsonl event: "@ + cause),
            _ => self.shut_down(1),
        }
    }
}

/// How a run starts.
pub open spec fn json_start(plan: RunPlan, prompt: Option<Seq<char>>) -> (JsonState, JsonAction) {
    match prompt {
        Some(p) => fresh(plan).with_prompt(p),
        None => (fresh(plan), JsonAction::ReadPrompt),
    }
}

/// The input is the result of what the run asked for.
pub open spec fn fits(phase: JsonPhase, input: JsonInput) -> bool {
    match phase {
        JsonPhase::ReadPrompt => input is Prompt,
        JsonPhase::Spawn => input is Spawned,
        JsonPhase::Initialize => input is Initialized,
        JsonPhase::Start => input is Started,
        JsonPhase::ShutdownToReport { .. } => input is Done,
        JsonPhase::Report => input is Done,
        JsonPhase::ReportToShutdown => input is Done,
        JsonPhase::Write { .. } => input is Written,
        JsonPhase::ReadEvent => input is Event,
        JsonPhase::Translate { .. } => input is Translated,
        JsonPhase::Interrupt { .. } => input is Done,
        JsonPhase::ResolveEnd { .. } => input is Ended,
        JsonPhase::Shutdown { .. } => input is Done,
        JsonPhase::Exited { .. } => false,
    }
}

/// How a run goes on.
pub open spec fn json_next(s: JsonState, input: JsonInput) -> (JsonState, JsonAction) {
    match (s.phase, input) {
        (JsonPhase::ReadPrompt, JsonInput::Prompt(Ok(p))) => s.with_prompt(p),
        (JsonPhase::ReadPrompt, JsonInput::Prompt(Err(e))) => s.report(e, JsonPhase::Report),
        (JsonPhase::Spawn, JsonInput::Spawned(Ok(_))) => (
            s.at(JsonPhase::Initialize),
            JsonAction::Initialize,
        ),
        (JsonPhase::Spawn, JsonInput::Spawned(Err(e))) => s.report(e, JsonPhase::Report),
        (JsonPhase::Initialize, JsonInput::Initialized(Ok(_))) => (
            s.at(JsonPhase::Start),
            JsonAction::StartProject {
                user_message: s.prompt,
                cwd: Some(s.plan.workdir),
                rounds: Some(s.plan.rounds as u32),
                strict_rounds: s.plan.strict_rounds,
                event_mode: Some(PotterEventMode::ExecJson),
            },
        ),
        (JsonPhase::Initialize, JsonInput::Initialized(Err(e))) => (
            s.at(JsonPhase::ShutdownToReport { message: e }),
            JsonAction::Shutdown,
        ),
        (JsonPhase::ShutdownToReport { message }, _) => s.report(message, JsonPhase::Report),
        (JsonPhase::Start, JsonInput::Started(Ok((project, events)))) => s.with_project(
            project,
            events,
        ),
        (JsonPhase::Start, JsonInput::Started(Err(e))) => s.report(e, JsonPhase::ReportToShutdown),
        (JsonPhase::Report, _) => (
            s.at(JsonPhase::Exited { code: 1 }),
            JsonAction::Exit { code: 1 },
        ),
        (JsonPhase::ReportToShutdown, _) => s.shut_down(1),
        (JsonPhase::Write { current, queue, goal }, JsonInput::Written(Ok(_))) => s.with_written(
            current,
        ).write_all(queue, goal),
        (JsonPhase::Write { current, queue, goal }, JsonInput::Written(Err(cause))) => {
            s.write_failed(goal, cause)
        },
        (JsonPhase::ReadEvent, JsonInput::Event(Ok(Some(msg)))) => s.handle(msg),
        (JsonPhase::ReadEvent, JsonInput::Event(Ok(None))) => s.fail(
            "potter app-server event stream closed unexpectedly"@,
        ),
        (JsonPhase::ReadEvent, JsonInput::Event(Err(e))) => s.fail(e),
        (JsonPhase::Translate { round_finished }, JsonInput::Translated(events)) => s.write_all(
            events,
            JsonGoal::Translated { round_finished },
        ),
        (JsonPhase::Interrupt { message }, _) => s.resolve_end(
            PotterProjectCompletedOutcome::Fatal,
            Some(message),
        ),
        (
            JsonPhase::ResolveEnd { outcome, message },
            JsonInput::Ended { git_commit_end, duration_secs },
        ) => s.complete(outcome, message, git_commit_end, duration_secs),
        (JsonPhase::Shutdown { code }, _) => (
            s.at(JsonPhase::Exited { code }),
            JsonAction::Exit { code },
        ),
        _ => (s, JsonAction::Exit { code: 1 }),
    }
}

impl ExecJsonSession {
    fn report(self, message: String, phase: ExecJsonPhase) -> (r: (
        ExecJsonSession,
        ExecJsonAction,
    ))
        ensures
            (r.0@, r.1@) == self@.report(message@, phase@),
    {
        let trace = Ghost(
            self@.requesting(JsonlEvent::Error { message: message@ }).trace,
        );
        (ExecJsonSession { phase, trace, ..self }, ExecJsonAction::ReportError { message })
    }

    fn with_prompt(self, prompt: String) -> (r: (ExecJsonSession, ExecJsonAction))
        ensures
            (r.0@, r.1@) == self@.with_prompt(prompt@),
    {
        if exec::blank(prompt.as_str()) {
            return self.report("prompt is empty".to_owned(), ExecJsonPhase::Report);
        }
        match rounds::round_budget_to_u32(self.config.rounds) {
            Err(e) => self.report(e.message(), ExecJsonPhase::Report),
            Ok(_) => {
                let args = launch::potter_app_server_args(
                    self.config.codex_bin.as_str(),
                    self.config.rounds,
                    self.config.backend_launch,
                    self.config.potter_xmodel,
                    self.config.strict_rounds,
                    &self.config.upstream_cli_args,
                );
                (
                    ExecJsonSession { prompt, phase: ExecJsonPhase::Spawn, ..self },
                    ExecJsonAction::Spawn { args },
                )
            },
        }
    }

    /// Ask for an event to be written to the stream, and for the events of `queue` after it.
    fn write_jsonl_event(
        self,
        event: ExecJsonlEvent,
        queue: Vec<ExecJsonlEvent>,
        goal: WriteGoal,
    ) -> (r: (ExecJsonSession, ExecJsonAction))
        ensures
            (r.0@, r.1@) == self@.write(event@, exec_emitter::event_views(queue@), goal@),
    {
        let trace = Ghost(self@.requesting(event@).trace);
        let action = ExecJsonAction::Write { event: event.clone() };
        (
            ExecJsonSession {
                phase: ExecJsonPhase::Write { current: event, queue, goal },
                trace,
                ..self
            },
            action,
        )
    }

    /// Ask for the first of some events to be written, and for the others after it.
    fn write_each(self, events: Vec<ExecJsonlEvent>, goal: WriteGoal) -> (r: (
        ExecJsonSession,
        ExecJsonAction,
    ))
        requires
            events.len() > 0,
        ensures
            (r.0@, r.1@) == self@.write(
                events@[0]@,
                exec_emitter::event_views(events@).skip(1),
                goal@,
            ),
    {
        let mut queue = events;
        let ghost all = queue@;
        let event = queue.remove(0);
        proof {
            assert(exec_emitter::event_views(queue@) =~= exec_emitter::event_views(all).skip(1));
        }
        self.write_jsonl_event(event, queue, goal)
    }

    fn write_all(self, events: Vec<ExecJsonlEvent>, goal: WriteGoal) -> (r: (
        ExecJsonSession,
        ExecJsonAction,
    ))
        ensures
            (r.0@, r.1@) == self@.write_all(exec_emitter::event_views(events@), goal@),
    {
        if events.len() == 0 {
            self.wrote(goal)
        } else {
            self.write_each(events, goal)
        }
    }

    fn fail(self, message: String) -> (r: (ExecJsonSession, ExecJsonAction))
        ensures
            (r.0@, r.1@) == self@.fail(message@),
    {
        let events = self.emitter.fail_fast_with_error(message.as_str());
        assert(exec_emitter::event_views(events@).len() == events@.len());
        assert(exec_emitter::event_views(events@)[0] == events@[0]@);
        self.write_each(events, WriteGoal::Failed { message })
    }

    fn shut_down(self, code: i32) -> (r: (ExecJsonSession, ExecJsonAction))
        ensures
            (r.0@, r.1@) == self@.shut_down(code),
    {
        (
            ExecJsonSession { phase: ExecJsonPhase::Shutdown { code }, ..self },
            ExecJsonAction::Shutdown,
        )
    }

    fn handle(self, msg: EventMsg) -> (r: (ExecJsonSession, ExecJsonAction))
        ensures
            (r.0@, r.1@) == self@.handle(msg),
    {
        let mut emitter = self.emitter;
        match emitter.process_event_msg(msg) {
            ExecEventProgress::FailFast { message } => self.fail(message),
            ExecEventProgress::ProjectCompleted { outcome } => {
                let (outcome, message) = exec_events::exec_project_outcome(&outcome);
                (
                    ExecJsonSession {
                        phase: ExecJsonPhase::ResolveEnd { outcome, message },
                        ..self
                    },
                    ExecJsonAction::ResolveEnd,
                )
            },
            ExecEventProgress::Translate { msg, round_started, round_finished } => (
                ExecJsonSession {
                    emitter,
                    phase: ExecJsonPhase::Translate { round_finished },
                    ..self
                },
                ExecJsonAction::Translate { msg, round_started },
            ),
        }
    }

    fn read_on(self) -> (r: (ExecJsonSession, ExecJsonAction))
        ensures
            (r.0@, r.1@) == self@.read_on(),
    {
        if self.pending.len() == 0 {
            return (
                ExecJsonSession { phase: ExecJsonPhase::ReadEvent, ..self },
                ExecJsonAction::ReadEvent,
            );
        }
        let mut session = self;
        let msg = session.pending.remove(0);
        assert(session.pending@ =~= self@.pending.skip(1));
        session.handle(msg)
    }

    fn wrote(self, goal: WriteGoal) -> (r: (ExecJsonSession, ExecJsonAction))
        ensures
            (r.0@, r.1@) == self@.wrote(goal@),
    {
        match goal {
            WriteGoal::Started => self.read_on(),
            WriteGoal::Translated { round_finished } => {
                let mut session = self;
                if round_finished {
                    session.emitter.finish_round();
                }
                session.read_on()
            },
            WriteGoal::Failed { message } => {
                let mut emitter = self.emitter;
                if emitter.round_in_progress {
                    emitter.finish_round();
                }
                let project_id = self.project.project_id.clone();
                (
                    ExecJsonSession {
                        emitter,
                        phase: ExecJsonPhase::Interrupt { message },
                        ..self
                    },
                    ExecJsonAction::Interrupt { project_id },
                )
            },
            WriteGoal::Completed { outcome } => {
                let trace = Ghost(JsonTrace { completed: Some(outcome), ..self.trace@ });
                let session = ExecJsonSession { trace, ..self };
                session.shut_down(exec_events::exit_code_of(outcome))
            },
        }
    }

    fn with_project(self, project: StartedProject, pending: Vec<EventMsg>) -> (r: (
        ExecJsonSession,
        ExecJsonAction,
    ))
        ensures
            (r.0@, r.1@) == self@.with_project(project@, pending@),
    {
        let event = ExecJsonlEvent::PotterProjectStarted(
            PotterProjectStartedEvent {
                working_dir: project.working_dir.clone(),
                project_dir: project.project_dir.clone(),
                progress_file: project.progress_file.clone(),
                user_message: self.prompt.clone(),
                git_commit_start: project.git_commit_start.clone(),
                git_branch: text::copy_opt(&project.git_branch),
            },
        );
        let queue: Vec<ExecJsonlEvent> = Vec::new();
        assert(exec_emitter::event_views(queue@) =~= seq![]);
        let session = ExecJsonSession { project, pending, ..self };
        session.write_jsonl_event(event, queue, WriteGoal::Started)
    }

    fn complete(
        self,
        outcome: PotterProjectCompletedOutcome,
        message: Option<String>,
        git_commit_end: String,
        duration_secs: u64,
    ) -> (r: (ExecJsonSession, ExecJsonAction))
        ensures
            (r.0@, r.1@) == self@.complete(
                outcome,
                text::opt_text(message),
                git_commit_end@,
                duration_secs,
            ),
    {
        let event = ExecJsonlEvent::PotterProjectCompleted(
            PotterProjectCompletedEvent {
                outcome,
                message,
                rounds_run: self.emitter.rounds_run(),
                rounds_total: self.project.rounds_total,
                duration_secs,
                progress_file: self.project.progress_file.clone(),
                git_commit_start: self.project.git_commit_start.clone(),
                git_commit_end,
                git_branch: text::copy_opt(&self.project.git_branch),
            },
        );
        let queue: Vec<ExecJsonlEvent> = Vec::new();
        assert(exec_emitter::event_views(queue@) =~= seq![]);
        self.write_jsonl_event(event, queue, WriteGoal::Completed { outcome })
    }

    /// Start a run with the prompt that was given, if one was.
    pub fn start(config: ExecRunConfig, workdir: PathBuf, prompt: Option<String>) -> (r: (
        ExecJsonSession,
        ExecJsonAction,
    ))
        ensures
            (r.0@, r.1@) == json_start(exec::plan_of(config, workdir), text::opt_text(prompt)),
    {
        let session = ExecJsonSession {
            config,
            workdir,
            prompt: String::new(),
            project: StartedProject {
                project_id: String::new(),
                working_dir: String::new(),
                project_dir: String::new(),
                progress_file: String::new(),
                git_commit_start: String::new(),
                git_branch: None,
                rounds_total: 0,
            },
            pending: Vec::new(),
            emitter: ExecJsonlEmitter::new(),
            phase: ExecJsonPhase::ReadPrompt,
            trace: Ghost(JsonTrace { requested: seq![], written: seq![], completed: None }),
        };
        assert(session@ =~= fresh(exec::plan_of(config, workdir)));
        match prompt {
            Some(p) => session.with_prompt(p),
            None => (session, ExecJsonAction::ReadPrompt),
        }
    }

    /// Go on with the result of what was asked for last.
    pub fn step(self, input: ExecJsonInput) -> (r: (ExecJsonSession, ExecJsonAction))
        requires
            fits(self@.phase, input@),
        ensures
            (r.0@, r.1@) == json_next(self@, input@),
    {
        let ghost before = self@;
        let ExecJsonSession { config, workdir, prompt, project, pending, emitter, phase, trace } =
            self;
        let session = ExecJsonSession {
            config,
            workdir,
            prompt,
            project,
            pending,
            emitter,
            phase: ExecJsonPhase::ReadEvent,
            trace,
        };
        assert(session@ == before.at(JsonPhase::ReadEvent));
        match (phase, input) {
            (ExecJsonPhase::ReadPrompt, ExecJsonInput::Prompt(Ok(p))) => session.with_prompt(p),
            (ExecJsonPhase::ReadPrompt, ExecJsonInput::Prompt(Err(e))) => session.report(
                e,
                ExecJsonPhase::Report,
            ),
            (ExecJsonPhase::Spawn, ExecJsonInput::Spawned(Ok(_))) => (
                ExecJsonSession { phase: ExecJsonPhase::Initialize, ..session },
                ExecJsonAction::Initialize,
            ),
            (ExecJsonPhase::Spawn, ExecJsonInput::Spawned(Err(e))) => session.report(
                e,
                ExecJsonPhase::Report,
            ),
            (ExecJsonPhase::Initialize, ExecJsonInput::Initialized(Ok(_))) => {
                let params = ProjectStartParams {
                    user_message: session.prompt.clone(),
                    cwd: Some(session.workdir.clone()),
                    rounds: Some(session.config.rounds.get() as u32),
                    strict_rounds: session.config.strict_rounds,
                    event_mode: Some(PotterEventMode::ExecJson),
                };
                (
                    ExecJsonSession { phase: ExecJsonPhase::Start, ..session },
                    ExecJsonAction::StartProject { params },
                )
            },
            (ExecJsonPhase::Initialize, ExecJsonInput::Initialized(Err(e))) => (
                ExecJsonSession {
                    phase: ExecJsonPhase::ShutdownToReport { message: e },
                    ..session
                },
                ExecJsonAction::Shutdown,
            ),
            (ExecJsonPhase::ShutdownToReport { message }, _) => session.report(
                message,
                ExecJsonPhase::Report,
            ),
            (ExecJsonPhase::Start, ExecJsonInput::Started(Ok((project, events)))) => {
                session.with_project(project, events)
            },
            (ExecJsonPhase::Start, ExecJsonInput::Started(Err(e))) => session.report(
                e,
                ExecJsonPhase::ReportToShutdown,
            ),
            (ExecJsonPhase::Report, _) => (
                ExecJsonSession { phase: ExecJsonPhase::Exited { code: 1 }, ..session },
                ExecJsonAction::Exit { code: 1 },
            ),
            (ExecJsonPhase::ReportToShutdown, _) => session.shut_down(1),
            (
                ExecJsonPhase::Write { current, queue, goal },
                ExecJsonInput::Written(Ok(_)),
            ) => {
                let mut emitter = session.emitter;
                emitter.observe_json_turn_state(&current);
                let trace = Ghost(before.with_written(current@).trace);
                let session = ExecJsonSession { emitter, trace, ..session };
                session.write_all(queue, goal)
            },
            (
                ExecJsonPhase::Write { current, queue, goal },
                ExecJsonInput::Written(Err(cause)),
            ) => match goal {
                WriteGoal::Translated { .. } => {
                    let mut message = "write exec jsonl event: ".to_owned();
                    message.append(cause.as_str());
                    session.fail(message)
                },
                _ => session.shut_down(1),
            },
            (ExecJsonPhase::ReadEvent, ExecJsonInput::Event(Ok(Some(msg)))) => session.handle(msg),
            (ExecJsonPhase::ReadEvent, ExecJsonInput::Event(Ok(None))) => session.fail(
                "potter app-server event stream closed unexpectedly".to_owned(),
            ),
            (ExecJsonPhase::ReadEvent, ExecJsonInput::Event(Err(e))) => session.fail(e),
            (
                ExecJsonPhase::Translate { round_finished },
                ExecJsonInput::Translated(events),
            ) => session.write_all(events, WriteGoal::Translated { round_finished }),
            (ExecJsonPhase::Interrupt { message }, _) => (
                ExecJsonSession {
                    phase: ExecJsonPhase::ResolveEnd {
                        outcome: PotterProjectCompletedOutcome::Fatal,
                        message: Some(message),
                    },
                    ..session
                },
                ExecJsonAction::ResolveEnd,
            ),
            (
                ExecJsonPhase::ResolveEnd { outcome, message },
                ExecJsonInput::Ended { git_commit_end, duration_secs },
            ) => session.complete(outcome, message, git_commit_end, duration_secs),
            (ExecJsonPhase::Shutdown { code }, _) => (
                ExecJsonSession { phase: ExecJsonPhase::Exited { code }, ..session },
                ExecJsonAction::Exit { code },
            ),
            (phase, _) => (
                ExecJsonSession { phase, ..session },
                ExecJsonAction::Exit { code: 1 },
            ),
        }
    }
}

/// An action is read, mathematically, as what it is, with every value that it holds in its place.
pub proof fn law_action_is_read_as_it_is(action: ExecJsonAction)
    ensures
        match action {
            ExecJsonAction::ReadPrompt => action@ is ReadPrompt,
            ExecJsonAction::ReportError { message } => {
                &&& action@ is ReportError
                &&& action@->ReportError_message == message@
            },
            ExecJsonAction::Spawn { args } => {
                &&& action@ is Spawn
                &&& action@->Spawn_args == text::texts(args@)
            },
            ExecJsonAction::Initialize => action@ is Initialize,
            ExecJsonAction::StartProject { params } => {
                &&& action@ is StartProject
                &&& action@->StartProject_user_message == params.user_message@
                &&& action@->StartProject_cwd == params.cwd
                &&& action@->StartProject_rounds == params.rounds
                &&& action@->StartProject_strict_rounds == params.strict_rounds
                &&& action@->StartProject_event_mode == params.event_mode
            },
            ExecJsonAction::Write { event } => action@ is Write && action@->Write_event == event@,
            ExecJsonAction::ReadEvent => action@ is ReadEvent,
            ExecJsonAction::Translate { msg, round_started } => {
                &&& action@ is Translate
                &&& action@->Translate_msg == msg
                &&& action@->Translate_round_started == round_started
            },
            ExecJsonAction::Interrupt { project_id } => {
                &&& action@ is Interrupt
                &&& action@->Interrupt_project_id == project_id@
            },
            ExecJsonAction::ResolveEnd => action@ is ResolveEnd,
            ExecJsonAction::Shutdown => action@ is Shutdown,
            ExecJsonAction::Exit { code } => action@ is Exit && action@->Exit_code == code,
        },
{
}

/// A result is read, mathematically, as what it is, with every value that it holds in its place.
pub proof fn law_input_is_read_as_it_is(input: ExecJsonInput)
    ensures
        match input {
            ExecJsonInput::Prompt(r) => {
                &&& input@ is Prompt
                &&& input@->Prompt_0 == (match r {
                    Ok(s) => Ok(s@),
                    Err(e) => Err(e@),
                })
            },
            ExecJsonInput::Done => input@ is Done,
            ExecJsonInput::Spawned(r) => {
                &&& input@ is Spawned
                &&& input@->Spawned_0 == exec::failure_text(r)
            },
            ExecJsonInput::Initialized(r) => {
                &&& input@ is Initialized
                &&& input@->Initialized_0 == exec::failure_text(r)
            },
            ExecJsonInput::Started(r) => {
                &&& input@ is Started
                &&& input@->Started_0 == (match r {
                    Ok((project, events)) => Ok((project@, events@)),
                    Err(e) => Err(e@),
                })
            },
            ExecJsonInput::Written(r) => {
                &&& input@ is Written
                &&& input@->Written_0 == exec::failure_text(r)
            },
            ExecJsonInput::Event(r) => input@ is Event && input@->Event_0 == exec::failure_text(r),
            ExecJsonInput::Translated(events) => {
                &&& input@ is Translated
                &&& input@->Translated_0 == exec_emitter::event_views(events@)
            },
            ExecJsonInput::Ended { git_commit_end, duration_secs } => {
                &&& input@ is Ended
                &&& input@->Ended_git_commit_end == git_commit_end@
                &&& input@->Ended_duration_secs == duration_secs
            },
        },
{
}

} // verus!
