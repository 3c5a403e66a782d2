//! A run of `exec` that prints a transcript for people, from the prompt to the exit code.
//!
//! As with `exec --json`, the decisions are made here and the work is done outside: see
//! [`ExecHumanSession::start`] and [`ExecHumanSession::step`]. The transcript itself is rendered
//! by the project render loop, whose result decides how the run ends.

use std::path::PathBuf;

use vstd::prelude::*;

use crate::exec;
use crate::exec::ExecRunConfig;
use crate::exec::ProjectFacts;
use crate::exec::RunPlan;
use crate::exec::StartedProject;
use crate::exec_events;
use crate::launch;
use crate::potter_protocol::PotterEventMode;
use crate::potter_protocol::ProjectStartParams;
use crate::protocol::Event;
use crate::protocol::PotterProjectOutcome;
use crate::rounds;
use crate::text;

verus! {

/// How the render loop ended.
#[derive(Debug)]
pub enum PotterProjectRenderExit {
    /// The project ran to its end.
    Completed { outcome: PotterProjectOutcome },
    /// The project was interrupted and waits for a decision.
    Interrupted,
    UserRequested,
    FatalExitRequested,
}

/// Outside work that the run asks for.
#[derive(Debug)]
pub enum ExecHumanAction {
    /// Read the prompt from standard input.
    ReadPrompt,
    /// Print `error: ` and the message to standard error.
    PrintError { message: String },
    /// Spawn the app-server with these arguments.
    Spawn { args: Vec<String> },
    /// Initialize the app-server.
    Initialize,
    /// Start a project.
    StartProject { params: ProjectStartParams },
    /// Run the render loop over the project's events, those that came before the answer first.
    Render {
        project_id: String,
        working_dir: String,
        git_branch: Option<String>,
        turn_prompt: String,
        buffered_events: Vec<Event>,
    },
    /// Interrupt the project; whether that works does not matter.
    Interrupt { project_id: String },
    /// Shut the app-server down; whether that works does not matter.
    Shutdown,
    /// The run is over.
    Exit { code: i32 },
}

/// The result of outside work.
#[derive(Debug)]
pub enum ExecHumanInput {
    /// Of `ReadPrompt`.
    Prompt(Result<String, String>),
    /// Of `PrintError`, `Interrupt` and `Shutdown`.
    Done,
    /// Of `Spawn`.
    Spawned(Result<(), String>),
    /// Of `Initialize`.
    Initialized(Result<(), String>),
    /// Of `StartProject`: the project, and the events that came before the answer.
    Started(Result<(StartedProject, Vec<Event>), String>),
    /// Of `Render`.
    Rendered(Result<PotterProjectRenderExit, String>),
}

/// What the run is waiting for.
#[derive(Debug)]
pub enum ExecHumanPhase {
    ReadPrompt,
    Spawn,
    Initialize,
    Start,
    /// Shutting down because initializing failed; the reason is still to be printed.
    ShutdownToReport { message: String },
    /// Printing why the run failed, with nothing left to shut down.
    Report,
    /// Printing why the run failed, before shutting down.
    ReportToShutdown,
    Render,
    /// Interrupting the project; a reason may still be to be printed.
    Interrupt { message: Option<String> },
    Shutdown { code: i32 },
    Exited { code: i32 },
}

/// A run of `exec` that prints a transcript.
pub struct ExecHumanSession {
    config: ExecRunConfig,
    workdir: PathBuf,
    fixed_prompt: String,
    prompt: String,
    project_id: String,
    phase: ExecHumanPhase,
    trace: Ghost<HumanTrace>,
}

/// What a run has done so far.
pub struct HumanTrace {
    /// Every error that was printed.
    pub printed: Seq<Seq<char>>,
    /// The project was handed to the render loop.
    pub rendered: bool,
    /// How the project ended, where it ran to its end.
    pub outcome: Option<PotterProjectOutcome>,
}

/// The mathematical counterpart of [`ExecHumanAction`].
pub enum HumanAction {
    ReadPrompt,
    PrintError { message: Seq<char> },
    Spawn { args: Seq<Seq<char>> },
    Initialize,
    StartProject {
        user_message: Seq<char>,
        cwd: Option<PathBuf>,
        rounds: Option<u32>,
        strict_rounds: bool,
        event_mode: Option<PotterEventMode>,
    },
    Render {
        project_id: Seq<char>,
        working_dir: Seq<char>,
        git_branch: Option<Seq<char>>,
        turn_prompt: Seq<char>,
        buffered_events: Seq<Event>,
    },
    Interrupt { project_id: Seq<char> },
    Shutdown,
    Exit { code: i32 },
}

/// The mathematical counterpart of [`ExecHumanInput`].
pub enum HumanInput {
    Prompt(Result<Seq<char>, Seq<char>>),
    Done,
    Spawned(Result<(), Seq<char>>),
    Initialized(Result<(), Seq<char>>),
    Started(Result<(ProjectFacts, Seq<Event>), Seq<char>>),
    Rendered(Result<PotterProjectRenderExit, Seq<char>>),
}

/// The mathematical counterpart of [`ExecHumanPhase`].
pub enum HumanPhase {
    ReadPrompt,
    Spawn,
    Initialize,
    Start,
    ShutdownToReport { message: Seq<char> },
    Report,
    ReportToShutdown,
    Render,
    Interrupt { message: Option<Seq<char>> },
    Shutdown { code: i32 },
    Exited { code: i32 },
}

/// The state of a run, mathematically.
pub struct HumanState {
    pub plan: RunPlan,
    pub fixed_prompt: Seq<char>,
    pub prompt: Seq<char>,
    pub project_id: Seq<char>,
    pub phase: HumanPhase,
    pub trace: HumanTrace,
}

impl View for ExecHumanAction {
    type V = HumanAction;

    open spec fn view(&self) -> HumanAction {
        match *self {
            ExecHumanAction::ReadPrompt => HumanAction::ReadPrompt,
            ExecHumanAction::PrintError { message } => HumanAction::PrintError {
                message: message@,
            },
            ExecHumanAction::Spawn { args } => HumanAction::Spawn { args: text::texts(args@) },
            ExecHumanAction::Initialize => HumanAction::Initialize,
            ExecHumanAction::StartProject { params } => HumanAction::StartProject {
                user_message: params.user_message@,
                cwd: params.cwd,
                rounds: params.rounds,
                strict_rounds: params.strict_rounds,
                event_mode: params.event_mode,
            },
            ExecHumanAction::Render {
                project_id,
                working_dir,
                git_branch,
                turn_prompt,
                buffered_events,
            } => HumanAction::Render {
                project_id: project_id@,
                working_dir: working_dir@,
                git_branch: text::opt_text(git_branch),
                turn_prompt: turn_prompt@,
                buffered_events: buffered_events@,
            },
            ExecHumanAction::Interrupt { project_id } => HumanAction::Interrupt {
                project_id: project_id@,
            },
            ExecHumanAction::Shutdown => HumanAction::Shutdown,
            ExecHumanAction::Exit { code } => HumanAction::Exit { code },
        }
    }
}

impl View for ExecHumanInput {
    type V = HumanInput;

    open spec fn view(&self) -> HumanInput {
        match *self {
            ExecHumanInput::Prompt(r) => HumanInput::Prompt(
                match r {
                    Ok(s) => Ok(s@),
                    Err(e) => Err(e@),
                },
            ),
            ExecHumanInput::Done => HumanInput::Done,
            ExecHumanInput::Spawned(r) => HumanInput::Spawned(exec::failure_text(r)),
            ExecHumanInput::Initialized(r) => HumanInput::Initialized(exec::failure_text(r)),
            ExecHumanInput::Started(r) => HumanInput::Started(
                match r {
                    Ok((project, events)) => Ok((project@, events@)),
                    Err(e) => Err(e@),
                },
            ),
            ExecHumanInput::Rendered(r) => HumanInput::Rendered(exec::failure_text(r)),
        }
    }
}

impl View for ExecHumanPhase {
    type V = HumanPhase;

    open spec fn view(&self) -> HumanPhase {
        match *self {
            ExecHumanPhase::ReadPrompt => HumanPhase::ReadPrompt,
            ExecHumanPhase::Spawn => HumanPhase::Spawn,
            ExecHumanPhase::Initialize => HumanPhase::Initialize,
            ExecHumanPhase::Start => HumanPhase::Start,
            ExecHumanPhase::ShutdownToReport { message } => HumanPhase::ShutdownToReport {
                message: message@,
            },
            ExecHumanPhase::Report => HumanPhase::Report,
            ExecHumanPhase::ReportToShutdown => HumanPhase::ReportToShutdown,
            ExecHumanPhase::Render => HumanPhase::Render,
            ExecHumanPhase::Interrupt { message } => HumanPhase::Interrupt {
                message: text::opt_text(message),
            },
            ExecHumanPhase::Shutdown { code } => HumanPhase::Shutdown { code },
            ExecHumanPhase::Exited { code } => HumanPhase::Exited { code },
        }
    }
}

impl View for ExecHumanSession {
    type V = HumanState;

    closed spec fn view(&self) -> HumanState {
        HumanState {
            plan: exec::plan_of(self.config, self.workdir),
            fixed_prompt: self.fixed_prompt@,
            prompt: self.prompt@,
            project_id: self.project_id@,
            phase: self.phase@,
            trace: self.trace@,
        }
    }
}

/// A run that has done nothing yet.
pub open spec fn fresh(plan: RunPlan, fixed_prompt: Seq<char>) -> HumanState {
    HumanState {
        plan,
        fixed_prompt,
        prompt: seq![],
        project_id: seq![],
        phase: HumanPhase::ReadPrompt,
        trace: HumanTrace { printed: seq![], rendered: false, outcome: None },
    }
}

impl HumanState {
    /// In another phase.
    pub open spec fn at(self, phase: HumanPhase) -> HumanState {
        HumanState { phase, ..self }
    }

    /// Print an error.
    pub open spec fn report(self, message: Seq<char>, phase: HumanPhase) -> (
        HumanState,
        HumanAction,
    ) {
        (
            HumanState {
                trace: HumanTrace { printed: self.trace.printed.push(message), ..self.trace },
                ..self
            }.at(phase),
            HumanAction::PrintError { message },
        )
    }

    /// The prompt is known: check it and the round budget, and go on.
    pub open spec fn with_prompt(self, prompt: Seq<char>) -> (HumanState, HumanAction) {
        if exec::is_blank(prompt) {
            self.report("prompt is empty"@, HumanPhase::Report)
        } else if self.plan.rounds > u32::MAX {
            self.report(rounds::round_budget_message(self.plan.rounds), HumanPhase::Report)
        } else {
            (
                HumanState { prompt, ..self }.at(HumanPhase::Spawn),
                HumanAction::Spawn {
                    args: launch::app_server_args(
                        self.plan.codex_bin,
                        self.plan.rounds,
                        self.plan.backend_launch,
                        self.plan.potter_xmodel,
                        self.plan.strict_rounds,
                        self.plan.upstream_cli_args,
                    ),
                },
            )
        }
    }

    /// The project was started: render it.
    pub open spec fn with_project(self, project: ProjectFacts, buffered: Seq<Event>) -> (
        HumanState,
        HumanAction,
    ) {
        (
            HumanState {
                project_id: project.project_id,
                trace: HumanTrace { rendered: true, ..self.trace },
                ..self
            }.at(HumanPhase::Render),
            HumanAction::Render {
                project_id: project.project_id,
                working_dir: project.working_dir,
                git_branch: project.git_branch,
                turn_prompt: text::trim_end(self.fixed_prompt),
                buffered_events: buffered,
            },
        )
    }

    /// Shut down, and exit with `code`.
    pub open spec fn shut_down(self, code: i32) -> (HumanState, HumanAction) {
        (self.at(HumanPhase::Shutdown { code }), HumanAction::Shutdown)
    }

    /// Interrupt the project, and print `message` after that, where there is one.
    pub open spec fn interrupt(self, message: Option<Seq<char>>) -> (HumanState, HumanAction) {
        (
            self.at(HumanPhase::Interrupt { message }),
            HumanAction::Interrupt { project_id: self.project_id },
        )
    }

    /// The render loop ended.
    pub open spec fn rendered(self, exit: Result<PotterProjectRenderExit, Seq<char>>) -> (
        HumanState,
        HumanAction,
    ) {
        match exit {
            Ok(PotterProjectRenderExit::Completed { outcome }) => HumanState {
                trace: HumanTrace { outcome: Some(outcome), ..self.trace },
                ..self
            }.shut_down(exec_events::exit_code(exec_events::reported(outcome).0)),
            Ok(PotterProjectRenderExit::Interrupted) => self.interrupt(
                Some("exec human mode cannot resolve interrupted projects"@),
            ),
            Ok(PotterProjectRenderExit::UserRequested) => self.interrupt(None),
            Ok(PotterProjectRenderExit::FatalExitRequested) => self.interrupt(None),
            Err(e) => self.interrupt(Some(e)),
        }
    }
}

/// How a run starts.
pub open spec fn human_start(
    plan: RunPlan,
    fixed_prompt: Seq<char>,
    prompt: Option<Seq<char>>,
) -> (HumanState, HumanAction) {
    match prompt {
        Some(p) => fresh(plan, fixed_prompt).with_prompt(p),
        None => (fresh(plan, fixed_prompt), HumanAction::ReadPrompt),
    }
}

/// The input is the result of what the run asked for.
pub open spec fn fits(phase: HumanPhase, input: HumanInput) -> bool {
    match phase {
        HumanPhase::ReadPrompt => input is Prompt,
        HumanPhase::Spawn => input is Spawned,
        HumanPhase::Initialize => input is Initialized,
        HumanPhase::Start => input is Started,
        HumanPhase::ShutdownToReport { .. } => input is Done,
        HumanPhase::Report => input is Done,
        HumanPhase::ReportToShutdown => input is Done,
        HumanPhase::Render => input is Rendered,
        HumanPhase::Interrupt { .. } => input is Done,
        HumanPhase::Shutdown { .. } => input is Done,
        HumanPhase::Exited { .. } => false,
    }
}

/// How a run goes on.
pub open spec fn human_next(s: HumanState, input: HumanInput) -> (HumanState, HumanAction) {
    match (s.phase, input) {
        (HumanPhase::ReadPrompt, HumanInput::Prompt(Ok(p))) => s.with_prompt(p),
        (HumanPhase::ReadPrompt, HumanInput::Prompt(Err(e))) => s.report(e, HumanPhase::Report),
        (HumanPhase::Spawn, HumanInput::Spawned(Ok(_))) => (
            s.at(HumanPhase::Initialize),
            HumanAction::Initialize,
        ),
        (HumanPhase::Spawn, HumanInput::Spawned(Err(e))) => s.report(e, HumanPhase::Report),
        (HumanPhase::Initialize, HumanInput::Initialized(Ok(_))) => (
            s.at(HumanPhase::Start),
            HumanAction::StartProject {
                user_message: s.prompt,
                cwd: Some(s.plan.workdir),
                rounds: Some(s.plan.rounds as u32),
                strict_rounds: s.plan.strict_rounds,
                event_mode: Some(PotterEventMode::Interactive),
            },
        ),
        (HumanPhase::Initialize, HumanInput::Initialized(Err(e))) => (
            s.at(HumanPhase::ShutdownToReport { message: e }),
            HumanAction::Shutdown,
        ),
        (HumanPhase::ShutdownToReport { message }, _) => s.report(message, HumanPhase::Report),
        (HumanPhase::Start, HumanInput::Started(Ok((project, events)))) => s.with_project(
            project,
            events,
        ),
        (HumanPhase::Start, HumanInput::Started(Err(e))) => s.report(
            e,
            HumanPhase::ReportToShutdown,
        ),
        (HumanPhase::Report, _) => (
            s.at(HumanPhase::Exited { code: 1 }),
            HumanAction::Exit { code: 1 },
        ),
        (HumanPhase::ReportToShutdown, _) => s.shut_down(1),
        (HumanPhase::Render, HumanInput::Rendered(exit)) => s.rendered(exit),
        (HumanPhase::Interrupt { message }, _) => match message {
            Some(m) => s.report(m, HumanPhase::ReportToShutdown),
            None => s.shut_down(1),
        },
        (HumanPhase::Shutdown { code }, _) => (
            s.at(HumanPhase::Exited { code }),
            HumanAction::Exit { code },
        ),
        _ => (s, HumanAction::Exit { code: 1 }),
    }
}

impl ExecHumanSession {
    fn report(self, message: String, phase: ExecHumanPhase) -> (r: (
        ExecHumanSession,
        ExecHumanAction,
    ))
        ensures
            (r.0@, r.1@) == self@.report(message@, phase@),
    {
        let trace = Ghost(
            HumanTrace { printed: self.trace@.printed.push(message@), ..self.trace@ },
        );
        (ExecHumanSession { phase, trace, ..self }, ExecHumanAction::PrintError { message })
    }

    fn with_prompt(self, prompt: String) -> (r: (ExecHumanSession, ExecHumanAction))
        ensures
            (r.0@, r.1@) == self@.with_prompt(prompt@),
    {
        if exec::blank(prompt.as_str()) {
            return self.report("prompt is empty".to_owned(), ExecHumanPhase::Report);
        }
        match rounds::round_budget_to_u32(self.config.rounds) {
            Err(e) => self.report(e.message(), ExecHumanPhase::Report),
            Ok(_) => {
                let args = launch::potter_app_server_args(
                    self.config.codex_bin.as_str(),
                    self.config.rounds,
                    self.config.backend_launch,
                    self.config.potter_xmodel,
                    self.config.strict_rounds,
                    &self.config.upstream_cli_args,
                );
                (
                    ExecHumanSession { prompt, phase: ExecHumanPhase::Spawn, ..self },
                    ExecHumanAction::Spawn { args },
                )
            },
        }
    }

    fn with_project(self, project: StartedProject, buffered_events: Vec<Event>) -> (r: (
        ExecHumanSession,
        ExecHumanAction,
    ))
        ensures
            (r.0@, r.1@) == self@.with_project(project@, buffered_events@),
    {
        let fixed = text::chars_of(self.fixed_prompt.as_str());
        let turn_prompt = text::string_of(text::trim_end_of(fixed.as_slice()));
        let trace = Ghost(HumanTrace { rendered: true, ..self.trace@ });
        let action = ExecHumanAction::Render {
            project_id: project.project_id.clone(),
            working_dir: project.working_dir,
            git_branch: project.git_branch,
            turn_prompt,
            buffered_events,
        };
        (
            ExecHumanSession {
                project_id: project.project_id,
                phase: ExecHumanPhase::Render,
                trace,
                ..self
            },
            action,
        )
    }

    fn shut_down(self, code: i32) -> (r: (ExecHumanSession, ExecHumanAction))
        ensures
            (r.0@, r.1@) == self@.shut_down(code),
    {
        (
            ExecHumanSession { phase: ExecHumanPhase::Shutdown { code }, ..self },
            ExecHumanAction::Shutdown,
        )
    }

    fn interrupt(self, message: Option<String>) -> (r: (ExecHumanSession, ExecHumanAction))
        ensures
            (r.0@, r.1@) == self@.interrupt(text::opt_text(message)),
    {
        let project_id = self.project_id.clone();
        (
            ExecHumanSession { phase: ExecHumanPhase::Interrupt { message }, ..self },
            ExecHumanAction::Interrupt { project_id },
        )
    }

    fn rendered(self, exit: Result<PotterProjectRenderExit, String>) -> (r: (
        ExecHumanSession,
        ExecHumanAction,
    ))
        ensures
            (r.0@, r.1@) == self@.rendered(exec::failure_text(exit)),
    {
        match exit {
            Ok(PotterProjectRenderExit::Completed { outcome }) => {
                let (reported, _message) = exec_events::exec_project_outcome(&outcome);
                let trace = Ghost(HumanTrace { outcome: Some(outcome), ..self.trace@ });
                let session = ExecHumanSession { trace, ..self };
                session.shut_down(exec_events::exit_code_of(reported))
            },
            Ok(PotterProjectRenderExit::Interrupted) => self.interrupt(
                Some("exec human mode cannot resolve interrupted projects".to_owned()),
            ),
            Ok(PotterProjectRenderExit::UserRequested) => self.interrupt(None),
            Ok(PotterProjectRenderExit::FatalExitRequested) => self.interrupt(None),
            Err(e) => self.interrupt(Some(e)),
        }
    }

    /// Start a run with the prompt that was given, if one was. Every turn is started with
    /// `fixed_prompt`.
    pub fn start(
        config: ExecRunConfig,
        workdir: PathBuf,
        fixed_prompt: String,
        prompt: Option<String>,
    ) -> (r: (ExecHumanSession, ExecHumanAction))
        ensures
            (r.0@, r.1@) == human_start(
                exec::plan_of(config, workdir),
                fixed_prompt@,
                text::opt_text(prompt),
            ),
    {
        let session = ExecHumanSession {
            config,
            workdir,
            fixed_prompt,
            prompt: String::new(),
            project_id: String::new(),
            phase: ExecHumanPhase::ReadPrompt,
            trace: Ghost(HumanTrace { printed: seq![], rendered: false, outcome: None }),
        };
        assert(session@ =~= fresh(exec::plan_of(config, workdir), fixed_prompt@));
        match prompt {
            Some(p) => session.with_prompt(p),
            None => (session, ExecHumanAction::ReadPrompt),
        }
    }

    /// Go on with the result of what was asked for last.
    pub fn step(self, input: ExecHumanInput) -> (r: (ExecHumanSession, ExecHumanAction))
        requires
            fits(self@.phase, input@),
        ensures
            (r.0@, r.1@) == human_next(self@, input@),
    {
        let ghost before = self@;
        let ExecHumanSession { config, workdir, fixed_prompt, prompt, project_id, phase, trace } =
            self;
        let session = ExecHumanSession {
            config,
            workdir,
            fixed_prompt,
            prompt,
            project_id,
            phase: ExecHumanPhase::Render,
            trace,
        };
        assert(session@ == before.at(HumanPhase::Render));
        match (phase, input) {
            (ExecHumanPhase::ReadPrompt, ExecHumanInput::Prompt(Ok(p))) => session.with_prompt(p),
            (ExecHumanPhase::ReadPrompt, ExecHumanInput::Prompt(Err(e))) => session.report(
                e,
                ExecHumanPhase::Report,
            ),
            (ExecHumanPhase::Spawn, ExecHumanInput::Spawned(Ok(_))) => (
                ExecHumanSession { phase: ExecHumanPhase::Initialize, ..session },
                ExecHumanAction::Initialize,
            ),
            (ExecHumanPhase::Spawn, ExecHumanInput::Spawned(Err(e))) => session.report(
                e,
                ExecHumanPhase::Report,
            ),
            (ExecHumanPhase::Initialize, ExecHumanInput::Initialized(Ok(_))) => {
                let params = ProjectStartParams {
                    user_message: session.prompt.clone(),
                    cwd: Some(session.workdir.clone()),
                    rounds: Some(session.config.rounds.get() as u32),
                    strict_rounds: session.config.strict_rounds,
                    event_mode: Some(PotterEventMode::Interactive),
                };
                (
                    ExecHumanSession { phase: ExecHumanPhase::Start, ..session },
                    ExecHumanAction::StartProject { params },
                )
            },
            (ExecHumanPhase::Initialize, ExecHumanInput::Initialized(Err(e))) => (
                ExecHumanSession {
                    phase: ExecHumanPhase::ShutdownToReport { message: e },
                    ..session
                },
                ExecHumanAction::Shutdown,
            ),
            (ExecHumanPhase::ShutdownToReport { message }, _) => session.report(
                message,
                ExecHumanPhase::Report,
            ),
            (ExecHumanPhase::Start, ExecHumanInput::Started(Ok((project, events)))) => {
                session.with_project(project, events)
            },
            (ExecHumanPhase::Start, ExecHumanInput::Started(Err(e))) => session.report(
                e,
                ExecHumanPhase::ReportToShutdown,
            ),
            (ExecHumanPhase::Report, _) => (
                ExecHumanSession { phase: ExecHumanPhase::Exited { code: 1 }, ..session },
                ExecHumanAction::Exit { code: 1 },
            ),
            (ExecHumanPhase::ReportToShutdown, _) => session.shut_down(1),
            (ExecHumanPhase::Render, ExecHumanInput::Rendered(exit)) => session.rendered(exit),
            (ExecHumanPhase::Interrupt { message }, _) => match message {
                Some(m) => session.report(m, ExecHumanPhase::ReportToShutdown),
                None => session.shut_down(1),
            },
            (ExecHumanPhase::Shutdown { code }, _) => (
                ExecHumanSession { phase: ExecHumanPhase::Exited { code }, ..session },
                ExecHumanAction::Exit { code },
            ),
            (phase, _) => (
                ExecHumanSession { phase, ..session },
                ExecHumanAction::Exit { code: 1 },
            ),
        }
    }
}

/// A run that ended, or is about to, with `code`.
pub open spec fn ended(trace: HumanTrace, code: i32) -> bool {
    match trace.outcome {
        Some(outcome) => trace.rendered && trace.printed.len() == 0 && code
            == exec_events::exit_code(exec_events::reported(outcome).0),
        None => code == 1 && (trace.rendered || trace.printed.len() == 1),
    }
}

/// What holds in every state of a run.
pub open spec fn human_inv(s: HumanState) -> bool {
    let quiet = s.trace.printed.len() == 0 && !s.trace.rendered && s.trace.outcome is None;
    match s.phase {
        HumanPhase::ReadPrompt => quiet,
        HumanPhase::Spawn => quiet && !exec::is_blank(s.prompt) && s.plan.rounds <= u32::MAX,
        HumanPhase::Initialize => quiet && !exec::is_blank(s.prompt) && s.plan.rounds <= u32::MAX,
        HumanPhase::Start => quiet && !exec::is_blank(s.prompt) && s.plan.rounds <= u32::MAX,
        HumanPhase::ShutdownToReport { .. } => quiet,
        HumanPhase::Report => s.trace.printed.len() == 1 && s.trace.outcome is None,
        HumanPhase::ReportToShutdown => s.trace.printed.len() == 1 && s.trace.outcome is None,
        HumanPhase::Render => s.trace.rendered && s.trace.printed.len() == 0
            && s.trace.outcome is None,
        HumanPhase::Interrupt { .. } => s.trace.rendered && s.trace.printed.len() == 0
            && s.trace.outcome is None,
        HumanPhase::Shutdown { code } => ended(s.trace, code),
        HumanPhase::Exited { code } => ended(s.trace, code),
    }
}

/// A run starts in a state as every state of a run is.
pub proof fn law_start_is_valid(
    plan: RunPlan,
    fixed_prompt: Seq<char>,
    prompt: Option<Seq<char>>,
)
    ensures
        human_inv(human_start(plan, fixed_prompt, prompt).0),
{
}

/// A run stays in states as every state of a run is, whatever comes back from outside.
pub proof fn law_steps_stay_valid(s: HumanState, input: HumanInput)
    requires
        human_inv(s),
        fits(s.phase, input),
    ensures
        human_inv(human_next(s, input).0),
{
}

/// A run exits with zero exactly when its project ran to its end and succeeded.
pub proof fn law_exit_code(s: HumanState)
    requires
        human_inv(s),
        s.phase is Exited,
    ensures
        s.phase->Exited_code == 0 <==> s.trace.outcome == Some(PotterProjectOutcome::Succeeded),
        s.phase->Exited_code == 0 || s.phase->Exited_code == 1,
{
}

/// A run that ends before its project could be rendered has printed exactly one error.
pub proof fn law_failure_to_start_is_one_error(s: HumanState)
    requires
        human_inv(s),
        s.phase is Exited,
        !s.trace.rendered,
    ensures
        s.trace.printed.len() == 1,
        s.phase->Exited_code == 1,
{
}

/// A project whose rendering ends in any way but its own end is interrupted.
pub proof fn law_unfinished_project_is_interrupted(
    s: HumanState,
    exit: Result<PotterProjectRenderExit, Seq<char>>,
)
    requires
        s.phase is Render,
        exit matches Ok(e) ==> !(e is Completed),
    ensures
        human_next(s, HumanInput::Rendered(exit)).1 == (HumanAction::Interrupt {
            project_id: s.project_id,
        }),
{
}

/// An action is read, mathematically, as what it is, with every value that it holds in its place.
pub proof fn law_action_is_read_as_it_is(action: ExecHumanAction)
    ensures
        match action {
            ExecHumanAction::ReadPrompt => action@ is ReadPrompt,
            ExecHumanAction::PrintError { message } => {
                &&& action@ is PrintError
                &&& action@->PrintError_message == message@
            },
            ExecHumanAction::Spawn { args } => {
                &&& action@ is Spawn
                &&& action@->Spawn_args == text::texts(args@)
            },
            ExecHumanAction::Initialize => action@ is Initialize,
            ExecHumanAction::StartProject { params } => {
                &&& action@ is StartProject
                &&& action@->StartProject_user_message == params.user_message@
                &&& action@->StartProject_cwd == params.cwd
                &&& action@->StartProject_rounds == params.rounds
                &&& action@->StartProject_strict_rounds == params.strict_rounds
                &&& action@->StartProject_event_mode == params.event_mode
            },
            ExecHumanAction::Render {
                project_id,
                working_dir,
                git_branch,
                turn_prompt,
                buffered_events,
            } => {
                &&& action@ is Render
                &&& action@->Render_project_id == project_id@
                &&& action@->Render_working_dir == working_dir@
                &&& action@->Render_git_branch == text::opt_text(git_branch)
                &&& action@->Render_turn_prompt == turn_prompt@
                &&& action@->Render_buffered_events == buffered_events@
            },
            ExecHumanAction::Interrupt { project_id } => {
                &&& action@ is Interrupt
                &&& action@->Interrupt_project_id == project_id@
            },
            ExecHumanAction::Shutdown => action@ is Shutdown,
            ExecHumanAction::Exit { code } => action@ is Exit && action@->Exit_code == code,
        },
{
}

/// A result is read, mathematically, as what it is, with every value that it holds in its place.
pub proof fn law_input_is_read_as_it_is(input: ExecHumanInput)
    ensures
        match input {
            ExecHumanInput::Prompt(r) => {
                &&& input@ is Prompt
                &&& input@->Prompt_0 == (match r {
                    Ok(s) => Ok(s@),
                    Err(e) => Err(e@),
                })
            },
            ExecHumanInput::Done => input@ is Done,
            ExecHumanInput::Spawned(r) => {
                &&& input@ is Spawned
                &&& input@->Spawned_0 == exec::failure_text(r)
            },
            ExecHumanInput::Initialized(r) => {
                &&& input@ is Initialized
                &&& input@->Initialized_0 == exec::failure_text(r)
            },
            ExecHumanInput::Started(r) => {
                &&& input@ is Started
                &&& input@->Started_0 == (match r {
                    Ok((project, events)) => Ok((project@, events@)),
                    Err(e) => Err(e@),
                })
            },
            ExecHumanInput::Rendered(r) => {
                &&& input@ is Rendered
                &&& input@->Rendered_0 == exec::failure_text(r)
            },
        },
{
}

} // verus!
