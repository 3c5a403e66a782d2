//! A run of the program, from its command line to its end.
//!
//! The decisions are made here and the work is done outside: see [`MainSession::start`] and
//! [`MainSession::step`]. The run starts with an action; every action is performed, and its result
//! is handed back, until the action is to end.

use vstd::prelude::*;

use crate::cli;
use crate::cli::Cli;
use crate::cli::CliCommand;
use crate::cli::CliVerbosity;
use crate::cli::CommandFacts;
use crate::cli::Verbosity;
use crate::rounds;
use crate::startup;
use crate::startup::CodexBinError;
use crate::startup::GitignoreStep;
use crate::startup::GlobalGitignorePromptOutcome;
use crate::startup::StartupSetupStep;
use crate::text;

verus! {

/// Outside work that the run asks for. `S` is a text, and `L` a list of texts.
#[derive(Debug)]
pub enum MainAction<S, L> {
    /// Find out the current directory: the run goes on in it.
    ResolveWorkdir,
    /// Print a line to standard error.
    PrintError { line: S },
    /// Print to standard error that the backend was not found.
    PrintStartupError { command: S },
    /// Write an `error` event to standard output; whether that works does not matter.
    WritePreflightError { message: S },
    /// Add the entry to the global gitignore where it is missing.
    ApplyDefaultGitignore,
    /// Find the backend.
    ResolveCodexBin { command: S },
    /// Load the configured verbosity.
    LoadVerbosity,
    /// Run `exec --json`.
    RunExecJson { codex_bin: S, prompt: Option<S> },
    /// Run `exec`.
    RunExecHuman { codex_bin: S, prompt: Option<S>, verbosity: Verbosity },
    /// Set up the home directory of the backend.
    EnsureCompatHome,
    /// Serve other processes, with the home directory that was set up or without one.
    RunAppServer { codex_bin: S, with_compat_home: bool },
    /// Set the title of the terminal.
    SetTitle,
    /// Look up whether to check for an update.
    ReadUpdateSetting,
    /// Open the user interface.
    OpenUi,
    /// Tell the user interface what the backend is asked for.
    SetBanner,
    /// Ask whether to update, where there is an update.
    PromptUpdate { check: bool },
    /// Close the user interface, print an empty line and the announcement, and run the command.
    RunUpdate { command: S, announcement: S },
    /// Print a line to standard output.
    PrintLine { line: S },
    /// Look up whether to keep from asking about the gitignore.
    ReadHidePrompt,
    /// Look whether the global gitignore has the entry.
    DetectGitignore,
    /// Look up whether the user is to be asked about the verbosity.
    ReadAsksVerbosity,
    /// Ask the user about the gitignore.
    PromptGitignore { step: Option<StartupSetupStep> },
    /// Add the entry to the global gitignore.
    EnsureGitignore,
    /// Remember not to ask about the gitignore again.
    PersistHide,
    /// Clear the user interface; whether that works does not matter.
    ClearUi,
    /// Ask the user about the verbosity.
    PromptVerbosity { step: Option<StartupSetupStep> },
    /// Spawn the app-server.
    Spawn { codex_bin: S },
    /// Initialize the app-server.
    Initialize,
    /// Ask the app-server for the projects.
    ListProjects,
    /// Let the user pick one of the projects.
    PickProject,
    /// Resume a project.
    RunResume { project_path: S },
    /// Run the projects that the user asks for, one after the other.
    RunQueue,
    /// Take the prompts that were queued and not run, and find out how the project is named when
    /// it is resumed.
    TakeQueuedPrompts { project_path: S, resumed: bool },
    /// Shut the app-server down; whether that works does not matter.
    Shutdown,
    /// Close the user interface, and print the notes.
    PrintNotes { queued: L, resume_path: S },
    /// The run failed.
    Fail { context: Option<S>, cause: S },
    /// The run is over.
    Finish,
    /// The run is over; nothing but the exit code is left.
    Exit { code: i32 },
}

/// What came of picking a project.
#[derive(Debug)]
pub enum ResumePickerOutcome<S> {
    StartFresh,
    Resume(S),
    Exit,
}

/// What came of resuming a project.
#[derive(Debug, Clone, Copy, PartialEq, Eq, Structural)]
pub enum ResumeExit {
    Completed,
    UserRequested,
    FatalExitRequested,
}

/// What came of running projects.
#[derive(Debug)]
pub enum ProjectQueueExit<S> {
    Completed,
    UserRequestedExit { project_dir: S },
}

/// The result of outside work.
#[derive(Debug)]
pub enum MainInput<S, L> {
    /// Of work that is done, whatever came of it.
    Done,
    /// Of work that may fail.
    Outcome(Result<(), S>),
    /// Of `ResolveCodexBin`: what to run, or the command that was not found.
    CodexBin(Result<S, S>),
    /// Of `LoadVerbosity`.
    Configured(Result<Option<Verbosity>, S>),
    /// Of `RunExecJson` and `RunExecHuman`.
    ExitCode(i32),
    /// Of `ReadUpdateSetting`: nothing where it cannot be read.
    UpdateSetting(Option<bool>),
    /// Of `PromptUpdate`: the command that updates, where the user wants that.
    Update(Result<Option<S>, S>),
    /// Of `RunUpdate`: whether it succeeded, and its status.
    Updated(Result<(bool, S), S>),
    /// Of `ReadHidePrompt`.
    HidePrompt(Result<Option<bool>, S>),
    /// Of `DetectGitignore`.
    HasEntry(Result<bool, S>),
    /// Of `ReadAsksVerbosity`.
    AsksVerbosity(bool),
    /// Of `PromptGitignore`.
    Answer(Result<GlobalGitignorePromptOutcome, S>),
    /// Of `ListProjects`: whether any event came before the answer.
    Listed(Result<bool, S>),
    /// Of `PickProject`.
    Picked(Result<ResumePickerOutcome<S>, S>),
    /// Of `RunResume`.
    Resumed(Result<ResumeExit, S>),
    /// Of `RunQueue`.
    QueueEnded(Result<ProjectQueueExit<S>, S>),
    /// Of `TakeQueuedPrompts`.
    Queued { prompts: L, resume_path: S },
}

/// What the run is waiting for.
#[derive(Debug)]
pub enum MainPhase<S, L> {
    ExecWorkdir,
    ExecGitignore,
    ExecBin,
    ExecVerbosity,
    /// Printing that the configured verbosity could not be loaded.
    ExecWarn,
    ExecRun,
    /// Printing an error that is then written as an event, too.
    ErrorToPreflight { message: S },
    /// Printing the last thing before the run exits with one.
    LastWords,
    Workdir,
    Bin,
    ServerGitignore,
    ServerHome,
    /// Printing that the home directory of the backend could not be set up.
    ServerWarn,
    ServerRun,
    Title,
    TitleWarn,
    UpdateSetting,
    OpenUi,
    Banner,
    Update,
    Updating { command: S },
    /// Printing that the update succeeded.
    UpdateReport,
    HidePrompt,
    HasEntry,
    /// Printing why the user is not asked about the gitignore.
    GitignoreWarn,
    AsksVerbosity,
    AskGitignore,
    EnsureGitignore,
    PersistHide,
    /// Printing why the user's answer could not be had or followed.
    AnswerWarn { clear: bool },
    ClearAfterGitignore,
    AskVerbosity,
    VerbosityWarn,
    ClearAfterVerbosity,
    Spawn,
    Initialize,
    List,
    Pick,
    Resume,
    WorkdirAfterResume,
    Queue,
    /// Taking the queued prompts, to exit with one or to shut down first.
    TakeQueued { fatal: bool },
    ShutdownToNotes { queued: L, resume_path: S },
    Notes { fatal: bool },
    Shutdown,
    Ended,
}

/// A run of the program.
pub struct MainSession {
    command: Option<CliCommand>,
    codex_bin: String,
    check_for_update: bool,
    asks_gitignore: bool,
    asks_verbosity: bool,
    project_path: String,
    phase: MainPhase<String, Vec<String>>,
}

/// The state of a run, mathematically.
pub struct MainState {
    pub command: Option<CommandFacts>,
    /// The backend: as it was asked for, and what to run once it was found.
    pub codex_bin: Seq<char>,
    pub check_for_update: bool,
    pub asks_gitignore: bool,
    pub asks_verbosity: bool,
    pub project_path: Seq<char>,
    pub phase: MainPhase<Seq<char>, Seq<Seq<char>>>,
}

/// The reason of a failure, as a text.
pub open spec fn failure<T>(r: Result<T, String>) -> Result<T, Seq<char>> {
    match r {
        Ok(v) => Ok(v),
        Err(e) => Err(e@),
    }
}

impl View for MainAction<String, Vec<String>> {
    type V = MainAction<Seq<char>, Seq<Seq<char>>>;

    open spec fn view(&self) -> MainAction<Seq<char>, Seq<Seq<char>>> {
        match *self {
            MainAction::ResolveWorkdir => MainAction::ResolveWorkdir,
            MainAction::PrintError { line } => MainAction::PrintError { line: line@ },
            MainAction::PrintStartupError { command } => MainAction::PrintStartupError {
                command: command@,
            },
            MainAction::WritePreflightError { message } => MainAction::WritePreflightError {
                message: message@,
            },
            MainAction::ApplyDefaultGitignore => MainAction::ApplyDefaultGitignore,
            MainAction::ResolveCodexBin { command } => MainAction::ResolveCodexBin {
                command: command@,
            },
            MainAction::LoadVerbosity => MainAction::LoadVerbosity,
            MainAction::RunExecJson { codex_bin, prompt } => MainAction::RunExecJson {
                codex_bin: codex_bin@,
                prompt: text::opt_text(prompt),
            },
            MainAction::RunExecHuman { codex_bin, prompt, verbosity } => MainAction::RunExecHuman {
                codex_bin: codex_bin@,
                prompt: text::opt_text(prompt),
                verbosity,
            },
            MainAction::EnsureCompatHome => MainAction::EnsureCompatHome,
            MainAction::RunAppServer { codex_bin, with_compat_home } => MainAction::RunAppServer {
                codex_bin: codex_bin@,
                with_compat_home,
            },
            MainAction::SetTitle => MainAction::SetTitle,
            MainAction::ReadUpdateSetting => MainAction::ReadUpdateSetting,
            MainAction::OpenUi => MainAction::OpenUi,
            MainAction::SetBanner => MainAction::SetBanner,
            MainAction::PromptUpdate { check } => MainAction::PromptUpdate { check },
            MainAction::RunUpdate { command, announcement } => MainAction::RunUpdate {
                command: command@,
                announcement: announcement@,
            },
            MainAction::PrintLine { line } => MainAction::PrintLine { line: line@ },
            MainAction::ReadHidePrompt => MainAction::ReadHidePrompt,
            MainAction::DetectGitignore => MainAction::DetectGitignore,
            MainAction::ReadAsksVerbosity => MainAction::ReadAsksVerbosity,
            MainAction::PromptGitignore { step } => MainAction::PromptGitignore { step },
            MainAction::EnsureGitignore => MainAction::EnsureGitignore,
            MainAction::PersistHide => MainAction::PersistHide,
            MainAction::ClearUi => MainAction::ClearUi,
            MainAction::PromptVerbosity { step } => MainAction::PromptVerbosity { step },
            MainAction::Spawn { codex_bin } => MainAction::Spawn { codex_bin: codex_bin@ },
            MainAction::Initialize => MainAction::Initialize,
            MainAction::ListProjects => MainAction::ListProjects,
            MainAction::PickProject => MainAction::PickProject,
            MainAction::RunResume { project_path } => MainAction::RunResume {
                project_path: project_path@,
            },
            MainAction::RunQueue => MainAction::RunQueue,
            MainAction::TakeQueuedPrompts { project_path, resumed } => {
                MainAction::TakeQueuedPrompts { project_path: project_path@, resumed }
            },
            MainAction::Shutdown => MainAction::Shutdown,
            MainAction::PrintNotes { queued, resume_path } => MainAction::PrintNotes {
                queued: text::texts(queued@),
                resume_path: resume_path@,
            },
            MainAction::Fail { context, cause } => MainAction::Fail {
                context: text::opt_text(context),
                cause: cause@,
            },
            MainAction::Finish => MainAction::Finish,
            MainAction::Exit { code } => MainAction::Exit { code },
        }
    }
}

impl View for MainInput<String, Vec<String>> {
    type V = MainInput<Seq<char>, Seq<Seq<char>>>;

    open spec fn view(&self) -> MainInput<Seq<char>, Seq<Seq<char>>> {
        match *self {
            MainInput::Done => MainInput::Done,
            MainInput::Outcome(r) => MainInput::Outcome(failure(r)),
            MainInput::CodexBin(r) => MainInput::CodexBin(
                match r {
                    Ok(bin) => Ok(bin@),
                    Err(command) => Err(command@),
                },
            ),
            MainInput::Configured(r) => MainInput::Configured(failure(r)),
            MainInput::ExitCode(code) => MainInput::ExitCode(code),
            MainInput::UpdateSetting(setting) => MainInput::UpdateSetting(setting),
            MainInput::Update(r) => MainInput::Update(
                match r {
                    Ok(command) => Ok(text::opt_text(command)),
                    Err(e) => Err(e@),
                },
            ),
            MainInput::Updated(r) => MainInput::Updated(
                match r {
                    Ok((success, status)) => Ok((success, status@)),
                    Err(e) => Err(e@),
                },
            ),
            MainInput::HidePrompt(r) => MainInput::HidePrompt(failure(r)),
            MainInput::HasEntry(r) => MainInput::HasEntry(failure(r)),
            MainInput::AsksVerbosity(asks) => MainInput::AsksVerbosity(asks),
            MainInput::Answer(r) => MainInput::Answer(failure(r)),
            MainInput::Listed(r) => MainInput::Listed(failure(r)),
            MainInput::Picked(r) => MainInput::Picked(
                match r {
                    Ok(ResumePickerOutcome::StartFresh) => Ok(ResumePickerOutcome::StartFresh),
                    Ok(ResumePickerOutcome::Resume(path)) => Ok(
                        ResumePickerOutcome::Resume(path@),
                    ),
                    Ok(ResumePickerOutcome::Exit) => Ok(ResumePickerOutcome::Exit),
                    Err(e) => Err(e@),
                },
            ),
            MainInput::Resumed(r) => MainInput::Resumed(failure(r)),
            MainInput::QueueEnded(r) => MainInput::QueueEnded(
                match r {
                    Ok(ProjectQueueExit::Completed) => Ok(ProjectQueueExit::Completed),
                    Ok(ProjectQueueExit::UserRequestedExit { project_dir }) => Ok(
                        ProjectQueueExit::UserRequestedExit { project_dir: project_dir@ },
                    ),
                    Err(e) => Err(e@),
                },
            ),
            MainInput::Queued { prompts, resume_path } => MainInput::Queued {
                prompts: text::texts(prompts@),
                resume_path: resume_path@,
            },
        }
    }
}

impl View for MainPhase<String, Vec<String>> {
    type V = MainPhase<Seq<char>, Seq<Seq<char>>>;

    open spec fn view(&self) -> MainPhase<Seq<char>, Seq<Seq<char>>> {
        match *self {
            MainPhase::ExecWorkdir => MainPhase::ExecWorkdir,
            MainPhase::ExecGitignore => MainPhase::ExecGitignore,
            MainPhase::ExecBin => MainPhase::ExecBin,
            MainPhase::ExecVerbosity => MainPhase::ExecVerbosity,
            MainPhase::ExecWarn => MainPhase::ExecWarn,
            MainPhase::ExecRun => MainPhase::ExecRun,
            MainPhase::ErrorToPreflight { message } => MainPhase::ErrorToPreflight {
                message: message@,
            },
            MainPhase::LastWords => MainPhase::LastWords,
            MainPhase::Workdir => MainPhase::Workdir,
            MainPhase::Bin => MainPhase::Bin,
            MainPhase::ServerGitignore => MainPhase::ServerGitignore,
            MainPhase::ServerHome => MainPhase::ServerHome,
            MainPhase::ServerWarn => MainPhase::ServerWarn,
            MainPhase::ServerRun => MainPhase::ServerRun,
            MainPhase::Title => MainPhase::Title,
            MainPhase::TitleWarn => MainPhase::TitleWarn,
            MainPhase::UpdateSetting => MainPhase::UpdateSetting,
            MainPhase::OpenUi => MainPhase::OpenUi,
            MainPhase::Banner => MainPhase::Banner,
            MainPhase::Update => MainPhase::Update,
            MainPhase::Updating { command } => MainPhase::Updating { command: command@ },
            MainPhase::UpdateReport => MainPhase::UpdateReport,
            MainPhase::HidePrompt => MainPhase::HidePrompt,
            MainPhase::HasEntry => MainPhase::HasEntry,
            MainPhase::GitignoreWarn => MainPhase::GitignoreWarn,
            MainPhase::AsksVerbosity => MainPhase::AsksVerbosity,
            MainPhase::AskGitignore => MainPhase::AskGitignore,
            MainPhase::EnsureGitignore => MainPhase::EnsureGitignore,
            MainPhase::PersistHide => MainPhase::PersistHide,
            MainPhase::AnswerWarn { clear } => MainPhase::AnswerWarn { clear },
            MainPhase::ClearAfterGitignore => MainPhase::ClearAfterGitignore,
            MainPhase::AskVerbosity => MainPhase::AskVerbosity,
            MainPhase::VerbosityWarn => MainPhase::VerbosityWarn,
            MainPhase::ClearAfterVerbosity => MainPhase::ClearAfterVerbosity,
            MainPhase::Spawn => MainPhase::Spawn,
            MainPhase::Initialize => MainPhase::Initialize,
            MainPhase::List => MainPhase::List,
            MainPhase::Pick => MainPhase::Pick,
            MainPhase::Resume => MainPhase::Resume,
            MainPhase::WorkdirAfterResume => MainPhase::WorkdirAfterResume,
            MainPhase::Queue => MainPhase::Queue,
            MainPhase::TakeQueued { fatal } => MainPhase::TakeQueued { fatal },
            MainPhase::ShutdownToNotes { queued, resume_path } => MainPhase::ShutdownToNotes {
                queued: text::texts(queued@),
                resume_path: resume_path@,
            },
            MainPhase::Notes { fatal } => MainPhase::Notes { fatal },
            MainPhase::Shutdown => MainPhase::Shutdown,
            MainPhase::Ended => MainPhase::Ended,
        }
    }
}

/// What the program is asked to do, mathematically.
pub open spec fn command_view(command: Option<CliCommand>) -> Option<CommandFacts> {
    match command {
        Some(c) => Some(c@),
        None => None,
    }
}

impl View for MainSession {
    type V = MainState;

    closed spec fn view(&self) -> MainState {
        MainState {
            command: command_view(self.command),
            codex_bin: self.codex_bin@,
            check_for_update: self.check_for_update,
            asks_gitignore: self.asks_gitignore,
            asks_verbosity: self.asks_verbosity,
            project_path: self.project_path@,
            phase: self.phase@,
        }
    }
}

/// Whether the run writes events.
pub open spec fn writes_events(command: Option<CommandFacts>) -> bool {
    command matches Some(CommandFacts::Exec { json, .. }) && json
}

/// The verbosity of a transcript.
pub open spec fn verbosity_of(
    asked: Option<CliVerbosity>,
    configured: Option<Verbosity>,
) -> Verbosity {
    match (asked, configured) {
        (Some(CliVerbosity::Minimal), _) => Verbosity::Minimal,
        (Some(CliVerbosity::Simple), _) => Verbosity::Simple,
        (None, Some(v)) => v,
        (None, None) => Verbosity::Minimal,
    }
}

/// A setup step's number; none where there is only one step.
pub open spec fn step_number(index: usize, several: bool) -> Option<StartupSetupStep> {
    if several {
        Some(StartupSetupStep { index, total: 2 })
    } else {
        None
    }
}

impl MainState {
    /// In another phase, with something to do.
    pub open spec fn at(
        self,
        phase: MainPhase<Seq<char>, Seq<Seq<char>>>,
        action: MainAction<Seq<char>, Seq<Seq<char>>>,
    ) -> (MainState, MainAction<Seq<char>, Seq<Seq<char>>>) {
        (MainState { phase, ..self }, action)
    }

    /// Print a warning, and go on from another phase.
    pub open spec fn warn(
        self,
        what: Seq<char>,
        error: Seq<char>,
        phase: MainPhase<Seq<char>, Seq<Seq<char>>>,
    ) -> (MainState, MainAction<Seq<char>, Seq<Seq<char>>>) {
        self.at(phase, MainAction::PrintError { line: startup::warning(what, error) })
    }

    /// The run failed.
    pub open spec fn fail(self, context: Option<Seq<char>>, cause: Seq<char>) -> (
        MainState,
        MainAction<Seq<char>, Seq<Seq<char>>>,
    ) {
        self.at(MainPhase::Ended, MainAction::Fail { context, cause })
    }

    /// Exit with one after printing something that is written as an event, too, where the run
    /// writes events.
    pub open spec fn last_words(
        self,
        action: MainAction<Seq<char>, Seq<Seq<char>>>,
        message: Seq<char>,
    ) -> (MainState, MainAction<Seq<char>, Seq<Seq<char>>>) {
        if writes_events(self.command) {
            self.at(MainPhase::ErrorToPreflight { message }, action)
        } else {
            self.at(MainPhase::LastWords, action)
        }
    }

    /// Run `exec` with a transcript.
    pub open spec fn exec_human(self, configured: Option<Verbosity>) -> (
        MainState,
        MainAction<Seq<char>, Seq<Seq<char>>>,
    ) {
        match self.command {
            Some(CommandFacts::Exec { prompt, verbosity, .. }) => self.at(
                MainPhase::ExecRun,
                MainAction::RunExecHuman {
                    codex_bin: self.codex_bin,
                    prompt,
                    verbosity: verbosity_of(verbosity, configured),
                },
            ),
            _ => self.at(MainPhase::Ended, MainAction::Finish),
        }
    }

    /// The backend was found, or was not, for an `exec`.
    pub open spec fn exec_bin(self, found: Result<Seq<char>, Seq<char>>) -> (
        MainState,
        MainAction<Seq<char>, Seq<Seq<char>>>,
    ) {
        match found {
            Err(command) => self.last_words(
                MainAction::PrintStartupError { command },
                startup::codex_bin_message(command),
            ),
            Ok(bin) => {
                let s = MainState { codex_bin: bin, ..self };
                match self.command {
                    Some(CommandFacts::Exec { prompt, json, verbosity }) => if json {
                        s.at(
                            MainPhase::ExecRun,
                            MainAction::RunExecJson { codex_bin: bin, prompt },
                        )
                    } else if verbosity is Some {
                        s.exec_human(None)
                    } else {
                        s.at(MainPhase::ExecVerbosity, MainAction::LoadVerbosity)
                    },
                    _ => s.at(MainPhase::Ended, MainAction::Finish),
                }
            },
        }
    }

    /// Serve other processes.
    pub open spec fn serve(self, with_compat_home: bool) -> (
        MainState,
        MainAction<Seq<char>, Seq<Seq<char>>>,
    ) {
        self.at(
            MainPhase::ServerRun,
            MainAction::RunAppServer { codex_bin: self.codex_bin, with_compat_home },
        )
    }

    /// Ask the setup questions, now that it is known which there are.
    pub open spec fn set_up(self) -> (MainState, MainAction<Seq<char>, Seq<Seq<char>>>) {
        if self.asks_gitignore {
            self.at(
                MainPhase::AskGitignore,
                MainAction::PromptGitignore { step: step_number(1, self.asks_verbosity) },
            )
        } else {
            self.after_gitignore()
        }
    }

    /// Ask about the verbosity, or go on.
    pub open spec fn after_gitignore(self) -> (MainState, MainAction<Seq<char>, Seq<Seq<char>>>) {
        if self.asks_verbosity {
            self.at(
                MainPhase::AskVerbosity,
                MainAction::PromptVerbosity { step: step_number(2, self.asks_gitignore) },
            )
        } else {
            self.spawn()
        }
    }

    /// Spawn the app-server.
    pub open spec fn spawn(self) -> (MainState, MainAction<Seq<char>, Seq<Seq<char>>>) {
        self.at(MainPhase::Spawn, MainAction::Spawn { codex_bin: self.codex_bin })
    }

    /// The app-server is ready: resume a project, or run some.
    pub open spec fn ready(self) -> (MainState, MainAction<Seq<char>, Seq<Seq<char>>>) {
        match self.command {
            Some(CommandFacts::Resume { project_path: Some(path) }) => self.resume(path),
            Some(CommandFacts::Resume { project_path: None }) => self.at(
                MainPhase::List,
                MainAction::ListProjects,
            ),
            _ => self.at(MainPhase::Queue, MainAction::RunQueue),
        }
    }

    /// Resume a project.
    pub open spec fn resume(self, path: Seq<char>) -> (
        MainState,
        MainAction<Seq<char>, Seq<Seq<char>>>,
    ) {
        MainState { project_path: path, ..self }.at(
            MainPhase::Resume,
            MainAction::RunResume { project_path: path },
        )
    }

    /// Leave a project behind that can be resumed.
    pub open spec fn leave(self, path: Seq<char>, resumed: bool, fatal: bool) -> (
        MainState,
        MainAction<Seq<char>, Seq<Seq<char>>>,
    ) {
        self.at(
            MainPhase::TakeQueued { fatal },
            MainAction::TakeQueuedPrompts { project_path: path, resumed },
        )
    }
}

impl MainState {
    /// The command that updates has ended.
    pub open spec fn updated(self, command: Seq<char>, result: Result<(bool, Seq<char>), Seq<char>>)
        -> (MainState, MainAction<Seq<char>, Seq<Seq<char>>>) {
        match result {
            Err(e) => self.fail(None, e),
            Ok((true, _)) => self.at(
                MainPhase::UpdateReport,
                MainAction::PrintLine { line: startup::UPDATE_SUCCEEDED@ },
            ),
            Ok((false, status)) => self.fail(None, startup::update_failure(command, status)),
        }
    }

    /// It is known whether the configuration keeps from asking about the gitignore.
    pub open spec fn config_read(self, hide_prompt: Result<Option<bool>, Seq<char>>) -> (
        MainState,
        MainAction<Seq<char>, Seq<Seq<char>>>,
    ) {
        match hide_prompt {
            Err(e) => self.warn(
                "failed to locate codexpotter config"@,
                e,
                MainPhase::GitignoreWarn,
            ),
            Ok(Some(true)) => self.at(MainPhase::AsksVerbosity, MainAction::ReadAsksVerbosity),
            Ok(_) => self.at(MainPhase::HasEntry, MainAction::DetectGitignore),
        }
    }

    /// It is known whether the global gitignore has the entry.
    pub open spec fn gitignore_read(self, has_entry: Result<bool, Seq<char>>) -> (
        MainState,
        MainAction<Seq<char>, Seq<Seq<char>>>,
    ) {
        match has_entry {
            Err(e) => self.warn(
                "failed to resolve global gitignore"@,
                e,
                MainPhase::GitignoreWarn,
            ),
            Ok(found) => MainState { asks_gitignore: !found, ..self }.at(
                MainPhase::AsksVerbosity,
                MainAction::ReadAsksVerbosity,
            ),
        }
    }

    /// The user answered about the gitignore.
    pub open spec fn answered(self, answer: Result<GlobalGitignorePromptOutcome, Seq<char>>) -> (
        MainState,
        MainAction<Seq<char>, Seq<Seq<char>>>,
    ) {
        match answer {
            Ok(GlobalGitignorePromptOutcome::AddToGlobalGitignore) => self.at(
                MainPhase::EnsureGitignore,
                MainAction::EnsureGitignore,
            ),
            Ok(GlobalGitignorePromptOutcome::No) => self.after_gitignore(),
            Ok(GlobalGitignorePromptOutcome::NoDontAskAgain) => self.at(
                MainPhase::PersistHide,
                MainAction::PersistHide,
            ),
            Err(e) => self.warn(
                "global gitignore prompt failed"@,
                e,
                MainPhase::AnswerWarn { clear: true },
            ),
        }
    }
}

/// How a run starts.
pub open spec fn main_start(command: Option<CommandFacts>, codex_bin: Seq<char>, rounds: nat) -> (
    MainState,
    MainAction<Seq<char>, Seq<Seq<char>>>,
) {
    let s = MainState {
        command,
        codex_bin,
        check_for_update: true,
        asks_gitignore: false,
        asks_verbosity: false,
        project_path: seq![],
        phase: MainPhase::Ended,
    };
    match command {
        Some(CommandFacts::Exec { .. }) => s.at(MainPhase::ExecWorkdir, MainAction::ResolveWorkdir),
        _ => if rounds > u32::MAX {
            s.fail(None, rounds::round_budget_message(rounds))
        } else {
            s.at(MainPhase::Workdir, MainAction::ResolveWorkdir)
        },
    }
}

/// The input is the result of what the run asked for.
pub open spec fn fits(
    phase: MainPhase<Seq<char>, Seq<Seq<char>>>,
    input: MainInput<Seq<char>, Seq<Seq<char>>>,
) -> bool {
    match phase {
        MainPhase::ExecWorkdir => input is Outcome,
        MainPhase::ExecBin => input is CodexBin,
        MainPhase::ExecVerbosity => input is Configured,
        MainPhase::ExecRun => input is ExitCode,
        MainPhase::Workdir => input is Outcome,
        MainPhase::Bin => input is CodexBin,
        MainPhase::ServerHome => input is Outcome,
        MainPhase::ServerRun => input is Outcome,
        MainPhase::Title => input is Outcome,
        MainPhase::UpdateSetting => input is UpdateSetting,
        MainPhase::OpenUi => input is Outcome,
        MainPhase::Banner => input is Outcome,
        MainPhase::Update => input is Update,
        MainPhase::Updating { .. } => input is Updated,
        MainPhase::HidePrompt => input is HidePrompt,
        MainPhase::HasEntry => input is HasEntry,
        MainPhase::AsksVerbosity => input is AsksVerbosity,
        MainPhase::AskGitignore => input is Answer,
        MainPhase::EnsureGitignore => input is Outcome,
        MainPhase::PersistHide => input is Outcome,
        MainPhase::AskVerbosity => input is Outcome,
        MainPhase::Spawn => input is Outcome,
        MainPhase::Initialize => input is Outcome,
        MainPhase::List => input is Listed,
        MainPhase::Pick => input is Picked,
        MainPhase::Resume => input is Resumed,
        MainPhase::WorkdirAfterResume => input is Outcome,
        MainPhase::Queue => input is QueueEnded,
        MainPhase::TakeQueued { .. } => input is Queued,
        MainPhase::Ended => false,
        _ => input is Done,
    }
}

/// How a run goes on.
pub open spec fn main_next(s: MainState, input: MainInput<Seq<char>, Seq<Seq<char>>>) -> (
    MainState,
    MainAction<Seq<char>, Seq<Seq<char>>>,
) {
    match (s.phase, input) {
        (MainPhase::ExecWorkdir, MainInput::Outcome(Ok(_))) => s.at(
            MainPhase::ExecGitignore,
            MainAction::ApplyDefaultGitignore,
        ),
        (MainPhase::ExecWorkdir, MainInput::Outcome(Err(e))) => s.last_words(
            MainAction::PrintError { line: "error: resolve current directory: "@ + e },
            "resolve current directory: "@ + e,
        ),
        (MainPhase::ExecGitignore, _) => s.at(
            MainPhase::ExecBin,
            MainAction::ResolveCodexBin { command: s.codex_bin },
        ),
        (MainPhase::ExecBin, MainInput::CodexBin(found)) => s.exec_bin(found),
        (MainPhase::ExecVerbosity, MainInput::Configured(Ok(configured))) => s.exec_human(
            configured,
        ),
        (MainPhase::ExecVerbosity, MainInput::Configured(Err(e))) => s.warn(
            "failed to load TUI verbosity"@,
            e,
            MainPhase::ExecWarn,
        ),
        (MainPhase::ExecWarn, _) => s.exec_human(None),
        (MainPhase::ExecRun, MainInput::ExitCode(code)) => s.at(
            MainPhase::Ended,
            MainAction::Exit { code },
        ),
        (MainPhase::ErrorToPreflight { message }, _) => s.at(
            MainPhase::LastWords,
            MainAction::WritePreflightError { message },
        ),
        (MainPhase::LastWords, _) => s.at(MainPhase::Ended, MainAction::Exit { code: 1 }),
        (MainPhase::Workdir, MainInput::Outcome(Ok(_))) => s.at(
            MainPhase::Bin,
            MainAction::ResolveCodexBin { command: s.codex_bin },
        ),
        (MainPhase::Workdir, MainInput::Outcome(Err(e))) => s.fail(
            Some("resolve current directory"@),
            e,
        ),
        (MainPhase::Bin, MainInput::CodexBin(Err(command))) => s.at(
            MainPhase::LastWords,
            MainAction::PrintStartupError { command },
        ),
        (MainPhase::Bin, MainInput::CodexBin(Ok(bin))) => {
            let found = MainState { codex_bin: bin, ..s };
            if s.command == Some(CommandFacts::AppServer) {
                found.at(MainPhase::ServerGitignore, MainAction::ApplyDefaultGitignore)
            } else {
                found.at(MainPhase::Title, MainAction::SetTitle)
            }
        },
        (MainPhase::ServerGitignore, _) => s.at(
            MainPhase::ServerHome,
            MainAction::EnsureCompatHome,
        ),
        (MainPhase::ServerHome, MainInput::Outcome(Ok(_))) => s.serve(true),
        (MainPhase::ServerHome, MainInput::Outcome(Err(e))) => s.warn(
            "failed to configure codex-compat home"@,
            e,
            MainPhase::ServerWarn,
        ),
        (MainPhase::ServerWarn, _) => s.serve(false),
        (MainPhase::ServerRun, MainInput::Outcome(Ok(_))) => s.at(
            MainPhase::Ended,
            MainAction::Finish,
        ),
        (MainPhase::ServerRun, MainInput::Outcome(Err(e))) => s.fail(None, e),
        (MainPhase::Title, MainInput::Outcome(Ok(_))) => s.at(
            MainPhase::UpdateSetting,
            MainAction::ReadUpdateSetting,
        ),
        (MainPhase::Title, MainInput::Outcome(Err(e))) => s.warn(
            "failed to set terminal title"@,
            e,
            MainPhase::TitleWarn,
        ),
        (MainPhase::TitleWarn, _) => s.at(MainPhase::UpdateSetting, MainAction::ReadUpdateSetting),
        (MainPhase::UpdateSetting, MainInput::UpdateSetting(setting)) => MainState {
            check_for_update: setting != Some(false),
            ..s
        }.at(MainPhase::OpenUi, MainAction::OpenUi),
        (MainPhase::OpenUi, MainInput::Outcome(Ok(_))) => s.at(
            MainPhase::Banner,
            MainAction::SetBanner,
        ),
        (MainPhase::OpenUi, MainInput::Outcome(Err(e))) => s.fail(None, e),
        (MainPhase::Banner, MainInput::Outcome(Ok(_))) => s.at(
            MainPhase::Update,
            MainAction::PromptUpdate { check: s.check_for_update },
        ),
        (MainPhase::Banner, MainInput::Outcome(Err(e))) => s.fail(
            Some("resolve startup banner Codex model config"@),
            e,
        ),
        (MainPhase::Update, MainInput::Update(Ok(Some(command)))) => s.at(
            MainPhase::Updating { command },
            MainAction::RunUpdate { command, announcement: startup::announcement(command) },
        ),
        (MainPhase::Update, MainInput::Update(Ok(None))) => s.at(
            MainPhase::HidePrompt,
            MainAction::ReadHidePrompt,
        ),
        (MainPhase::Update, MainInput::Update(Err(e))) => s.fail(None, e),
        (MainPhase::Updating { command }, MainInput::Updated(result)) => s.updated(command, result),
        (MainPhase::UpdateReport, _) => s.at(MainPhase::Ended, MainAction::Finish),
        (MainPhase::HidePrompt, MainInput::HidePrompt(hide)) => s.config_read(hide),
        (MainPhase::HasEntry, MainInput::HasEntry(has_entry)) => s.gitignore_read(has_entry),
        (MainPhase::GitignoreWarn, _) => s.at(
            MainPhase::AsksVerbosity,
            MainAction::ReadAsksVerbosity,
        ),
        (MainPhase::AsksVerbosity, MainInput::AsksVerbosity(asks)) => MainState {
            asks_verbosity: asks,
            ..s
        }.set_up(),
        (MainPhase::AskGitignore, MainInput::Answer(answer)) => s.answered(answer),
        (MainPhase::EnsureGitignore, MainInput::Outcome(Ok(_))) => s.after_gitignore(),
        (MainPhase::EnsureGitignore, MainInput::Outcome(Err(e))) => s.warn(
            "failed to update global gitignore"@,
            e,
            MainPhase::AnswerWarn { clear: false },
        ),
        (MainPhase::PersistHide, MainInput::Outcome(Ok(_))) => s.after_gitignore(),
        (MainPhase::PersistHide, MainInput::Outcome(Err(e))) => s.warn(
            "failed to persist config"@,
            e,
            MainPhase::AnswerWarn { clear: false },
        ),
        (MainPhase::AnswerWarn { clear }, _) => if clear {
            s.at(MainPhase::ClearAfterGitignore, MainAction::ClearUi)
        } else {
            s.after_gitignore()
        },
        (MainPhase::ClearAfterGitignore, _) => s.after_gitignore(),
        (MainPhase::AskVerbosity, MainInput::Outcome(Ok(_))) => s.spawn(),
        (MainPhase::AskVerbosity, MainInput::Outcome(Err(e))) => s.warn(
            "startup verbosity prompt failed"@,
            e,
            MainPhase::VerbosityWarn,
        ),
        (MainPhase::VerbosityWarn, _) => s.at(MainPhase::ClearAfterVerbosity, MainAction::ClearUi),
        (MainPhase::ClearAfterVerbosity, _) => s.spawn(),
        (MainPhase::Spawn, MainInput::Outcome(Ok(_))) => s.at(
            MainPhase::Initialize,
            MainAction::Initialize,
        ),
        (MainPhase::Spawn, MainInput::Outcome(Err(e))) => s.fail(
            Some("spawn potter app-server"@),
            e,
        ),
        (MainPhase::Initialize, MainInput::Outcome(Ok(_))) => s.ready(),
        (MainPhase::Initialize, MainInput::Outcome(Err(e))) => s.fail(
            Some("initialize potter app-server"@),
            e,
        ),
        (MainPhase::List, MainInput::Listed(Ok(any_events))) => if any_events {
            s.fail(None, "internal error: unexpected events during project/list"@)
        } else {
            s.at(MainPhase::Pick, MainAction::PickProject)
        },
        (MainPhase::List, MainInput::Listed(Err(e))) => s.fail(
            Some("project/list via potter app-server"@),
            e,
        ),
        (MainPhase::Pick, MainInput::Picked(Ok(ResumePickerOutcome::StartFresh))) => s.at(
            MainPhase::Queue,
            MainAction::RunQueue,
        ),
        (MainPhase::Pick, MainInput::Picked(Ok(ResumePickerOutcome::Resume(path)))) => s.resume(
            path,
        ),
        (MainPhase::Pick, MainInput::Picked(Ok(ResumePickerOutcome::Exit))) => s.at(
            MainPhase::Ended,
            MainAction::Finish,
        ),
        (MainPhase::Pick, MainInput::Picked(Err(e))) => s.fail(None, e),
        (MainPhase::Resume, MainInput::Resumed(Ok(ResumeExit::Completed))) => s.at(
            MainPhase::WorkdirAfterResume,
            MainAction::ResolveWorkdir,
        ),
        (MainPhase::Resume, MainInput::Resumed(Ok(ResumeExit::UserRequested))) => s.leave(
            s.project_path,
            true,
            false,
        ),
        (MainPhase::Resume, MainInput::Resumed(Ok(ResumeExit::FatalExitRequested))) => s.leave(
            s.project_path,
            true,
            true,
        ),
        (MainPhase::Resume, MainInput::Resumed(Err(e))) => s.fail(Some("resume project"@), e),
        (MainPhase::WorkdirAfterResume, MainInput::Outcome(Ok(_))) => s.at(
            MainPhase::Queue,
            MainAction::RunQueue,
        ),
        (MainPhase::WorkdirAfterResume, MainInput::Outcome(Err(e))) => s.fail(
            Some("resolve current directory after resume"@),
            e,
        ),
        (MainPhase::Queue, MainInput::QueueEnded(Ok(ProjectQueueExit::Completed))) => s.at(
            MainPhase::Shutdown,
            MainAction::Shutdown,
        ),
        (
            MainPhase::Queue,
            MainInput::QueueEnded(Ok(ProjectQueueExit::UserRequestedExit { project_dir })),
        ) => s.leave(project_dir, false, false),
        (MainPhase::Queue, MainInput::QueueEnded(Err(e))) => s.fail(None, e),
        (MainPhase::TakeQueued { fatal }, MainInput::Queued { prompts, resume_path }) => if fatal {
            s.at(
                MainPhase::Notes { fatal: true },
                MainAction::PrintNotes { queued: prompts, resume_path },
            )
        } else {
            s.at(
                MainPhase::ShutdownToNotes { queued: prompts, resume_path },
                MainAction::Shutdown,
            )
        },
        (MainPhase::ShutdownToNotes { queued, resume_path }, _) => s.at(
            MainPhase::Notes { fatal: false },
            MainAction::PrintNotes { queued, resume_path },
        ),
        (MainPhase::Notes { fatal }, _) => if fatal {
            s.at(MainPhase::Ended, MainAction::Exit { code: 1 })
        } else {
            s.at(MainPhase::Ended, MainAction::Finish)
        },
        (MainPhase::Shutdown, _) => s.at(MainPhase::Ended, MainAction::Finish),
        _ => (s, MainAction::Finish),
    }
}

impl MainSession {
    fn at(
        self,
        phase: MainPhase<String, Vec<String>>,
        action: MainAction<String, Vec<String>>,
    ) -> (r: (MainSession, MainAction<String, Vec<String>>))
        ensures
            (r.0@, r.1@) == self@.at(phase@, action@),
    {
        (MainSession { phase, ..self }, action)
    }

    fn warn(self, what: &str, error: String, phase: MainPhase<String, Vec<String>>) -> (r: (
        MainSession,
        MainAction<String, Vec<String>>,
    ))
        ensures
            (r.0@, r.1@) == self@.warn(what@, error@, phase@),
    {
        let line = startup::warn(what, error.as_str());
        self.at(phase, MainAction::PrintError { line })
    }

    fn fail(self, context: Option<&str>, cause: String) -> (r: (
        MainSession,
        MainAction<String, Vec<String>>,
    ))
        ensures
            (r.0@, r.1@) == self@.fail(
                match context {
                    Some(c) => Some(c@),
                    None => None,
                },
                cause@,
            ),
    {
        let context = match context {
            Some(c) => Some(c.to_owned()),
            None => None,
        };
        self.at(MainPhase::Ended, MainAction::Fail { context, cause })
    }

    fn last_words(self, action: MainAction<String, Vec<String>>, message: String) -> (r: (
        MainSession,
        MainAction<String, Vec<String>>,
    ))
        ensures
            (r.0@, r.1@) == self@.last_words(action@, message@),
    {
        let writes_events = match &self.command {
            Some(CliCommand::Exec { json, .. }) => *json,
            _ => false,
        };
        if writes_events {
            self.at(MainPhase::ErrorToPreflight { message }, action)
        } else {
            self.at(MainPhase::LastWords, action)
        }
    }

    fn exec_human(self, configured: Option<Verbosity>) -> (r: (
        MainSession,
        MainAction<String, Vec<String>>,
    ))
        ensures
            (r.0@, r.1@) == self@.exec_human(configured),
    {
        let (prompt, asked) = match &self.command {
            Some(CliCommand::Exec { prompt, verbosity, .. }) => (text::copy_opt(prompt), *verbosity),
            _ => {
                return self.at(MainPhase::Ended, MainAction::Finish);
            },
        };
        let codex_bin = self.codex_bin.clone();
        let verbosity = cli::resolve_exec_human_verbosity(asked, configured);
        self.at(MainPhase::ExecRun, MainAction::RunExecHuman { codex_bin, prompt, verbosity })
    }

    fn exec_bin(self, found: Result<String, String>) -> (r: (
        MainSession,
        MainAction<String, Vec<String>>,
    ))
        ensures
            (r.0@, r.1@) == self@.exec_bin(
                match found {
                    Ok(bin) => Ok(bin@),
                    Err(command) => Err(command@),
                },
            ),
    {
        let bin = match found {
            Err(command) => {
                let error = CodexBinError::NotFoundInPath { command };
                let message = error.message();
                let CodexBinError::NotFoundInPath { command } = error;
                return self.last_words(MainAction::PrintStartupError { command }, message);
            },
            Ok(bin) => bin,
        };
        let (json, prompt, asked) = match &self.command {
            Some(CliCommand::Exec { prompt, json, verbosity }) => (
                *json,
                text::copy_opt(prompt),
                *verbosity,
            ),
            _ => {
                let session = MainSession { codex_bin: bin, ..self };
                return session.at(MainPhase::Ended, MainAction::Finish);
            },
        };
        let codex_bin = bin.clone();
        let session = MainSession { codex_bin: bin, ..self };
        if json {
            session.at(MainPhase::ExecRun, MainAction::RunExecJson { codex_bin, prompt })
        } else if asked.is_some() {
            session.exec_human(None)
        } else {
            session.at(MainPhase::ExecVerbosity, MainAction::LoadVerbosity)
        }
    }

    fn serve(self, with_compat_home: bool) -> (r: (MainSession, MainAction<String, Vec<String>>))
        ensures
            (r.0@, r.1@) == self@.serve(with_compat_home),
    {
        let codex_bin = self.codex_bin.clone();
        self.at(MainPhase::ServerRun, MainAction::RunAppServer { codex_bin, with_compat_home })
    }

    fn set_up(self) -> (r: (MainSession, MainAction<String, Vec<String>>))
        ensures
            (r.0@, r.1@) == self@.set_up(),
    {
        if self.asks_gitignore {
            let (step, _) = startup::setup_steps(self.asks_gitignore, self.asks_verbosity);
            self.at(MainPhase::AskGitignore, MainAction::PromptGitignore { step })
        } else {
            self.after_gitignore()
        }
    }

    fn after_gitignore(self) -> (r: (MainSession, MainAction<String, Vec<String>>))
        ensures
            (r.0@, r.1@) == self@.after_gitignore(),
    {
        if self.asks_verbosity {
            let (_, step) = startup::setup_steps(self.asks_gitignore, self.asks_verbosity);
            self.at(MainPhase::AskVerbosity, MainAction::PromptVerbosity { step })
        } else {
            self.spawn()
        }
    }

    fn spawn(self) -> (r: (MainSession, MainAction<String, Vec<String>>))
        ensures
            (r.0@, r.1@) == self@.spawn(),
    {
        let codex_bin = self.codex_bin.clone();
        self.at(MainPhase::Spawn, MainAction::Spawn { codex_bin })
    }

    fn ready(self) -> (r: (MainSession, MainAction<String, Vec<String>>))
        ensures
            (r.0@, r.1@) == self@.ready(),
    {
        let asked = match &self.command {
            Some(CliCommand::Resume { project_path }) => text::copy_opt(project_path),
            _ => {
                return self.at(MainPhase::Queue, MainAction::RunQueue);
            },
        };
        match asked {
            Some(path) => self.resume(path),
            None => self.at(MainPhase::List, MainAction::ListProjects),
        }
    }

    fn resume(self, path: String) -> (r: (MainSession, MainAction<String, Vec<String>>))
        ensures
            (r.0@, r.1@) == self@.resume(path@),
    {
        let project_path = path.clone();
        let session = MainSession { project_path: path, ..self };
        session.at(MainPhase::Resume, MainAction::RunResume { project_path })
    }

    fn leave(self, project_path: String, resumed: bool, fatal: bool) -> (r: (
        MainSession,
        MainAction<String, Vec<String>>,
    ))
        ensures
            (r.0@, r.1@) == self@.leave(project_path@, resumed, fatal),
    {
        self.at(
            MainPhase::TakeQueued { fatal },
            MainAction::TakeQueuedPrompts { project_path, resumed },
        )
    }

    fn answered(self, answer: Result<GlobalGitignorePromptOutcome, String>) -> (r: (
        MainSession,
        MainAction<String, Vec<String>>,
    ))
        ensures
            (r.0@, r.1@) == self@.answered(failure(answer)),
    {
        match startup::maybe_prompt_global_gitignore(&answer) {
            GitignoreStep::Ensure => self.at(
                MainPhase::EnsureGitignore,
                MainAction::EnsureGitignore,
            ),
            GitignoreStep::PersistHide => self.at(
                MainPhase::PersistHide,
                MainAction::PersistHide,
            ),
            GitignoreStep::WarnAndClear { line } => self.at(
                MainPhase::AnswerWarn { clear: true },
                MainAction::PrintError { line },
            ),
            _ => self.after_gitignore(),
        }
    }

    fn config_read(self, hide_prompt: Result<Option<bool>, String>) -> (r: (
        MainSession,
        MainAction<String, Vec<String>>,
    ))
        ensures
            (r.0@, r.1@) == self@.config_read(failure(hide_prompt)),
    {
        match startup::prepare_global_gitignore_prompt(&hide_prompt) {
            GitignoreStep::Detect => self.at(MainPhase::HasEntry, MainAction::DetectGitignore),
            GitignoreStep::Warn { line } => self.at(
                MainPhase::GitignoreWarn,
                MainAction::PrintError { line },
            ),
            _ => self.at(MainPhase::AsksVerbosity, MainAction::ReadAsksVerbosity),
        }
    }

    fn gitignore_read(self, has_entry: Result<bool, String>) -> (r: (
        MainSession,
        MainAction<String, Vec<String>>,
    ))
        ensures
            (r.0@, r.1@) == self@.gitignore_read(failure(has_entry)),
    {
        match startup::plan_global_gitignore_prompt(&has_entry) {
            GitignoreStep::Ask => {
                let session = MainSession { asks_gitignore: true, ..self };
                session.at(MainPhase::AsksVerbosity, MainAction::ReadAsksVerbosity)
            },
            GitignoreStep::Warn { line } => self.at(
                MainPhase::GitignoreWarn,
                MainAction::PrintError { line },
            ),
            _ => {
                let session = MainSession { asks_gitignore: false, ..self };
                session.at(MainPhase::AsksVerbosity, MainAction::ReadAsksVerbosity)
            },
        }
    }

    fn updated(self, command: String, result: Result<(bool, String), String>) -> (r: (
        MainSession,
        MainAction<String, Vec<String>>,
    ))
        ensures
            (r.0@, r.1@) == self@.updated(
                command@,
                match result {
                    Ok((success, status)) => Ok((success, status@)),
                    Err(e) => Err(e@),
                },
            ),
    {
        match result {
            Err(e) => self.fail(None, e),
            Ok((success, status)) => {
                match startup::run_update_action(command.as_str(), success, status.as_str()) {
                    Ok(line) => self.at(
                        MainPhase::UpdateReport,
                        MainAction::PrintLine { line: line.to_owned() },
                    ),
                    Err(e) => self.fail(None, e),
                }
            },
        }
    }

    /// Start a run of the program, with its command line.
    pub fn start(cli: Cli) -> (r: (MainSession, MainAction<String, Vec<String>>))
        ensures
            (r.0@, r.1@) == main_start(
                cli@.command,
                cli@.codex_bin,
                match cli@.strict_rounds {
                    Some(n) => n,
                    None => cli@.rounds,
                },
            ),
    {
        let rounds = cli.effective_rounds();
        let is_exec = match &cli.command {
            Some(CliCommand::Exec { .. }) => true,
            _ => false,
        };
        let session = MainSession {
            command: cli.command,
            codex_bin: cli.codex_bin,
            check_for_update: true,
            asks_gitignore: false,
            asks_verbosity: false,
            project_path: String::new(),
            phase: MainPhase::Ended,
        };
        assert(session@.project_path =~= seq![]);
        if is_exec {
            return session.at(MainPhase::ExecWorkdir, MainAction::ResolveWorkdir);
        }
        match rounds::round_budget_to_u32(rounds) {
            Err(e) => session.fail(None, e.message()),
            Ok(_) => session.at(MainPhase::Workdir, MainAction::ResolveWorkdir),
        }
    }

    /// Go on with the result of what was asked for last.
    pub fn step(self, input: MainInput<String, Vec<String>>) -> (r: (
        MainSession,
        MainAction<String, Vec<String>>,
    ))
        requires
            fits(self@.phase, input@),
        ensures
            (r.0@, r.1@) == main_next(self@, input@),
    {
        let ghost before = self@;
        let MainSession {
            command,
            codex_bin,
            check_for_update,
            asks_gitignore,
            asks_verbosity,
            project_path,
            phase,
        } = self;
        let session = MainSession {
            command,
            codex_bin,
            check_for_update,
            asks_gitignore,
            asks_verbosity,
            project_path,
            phase: MainPhase::Ended,
        };
        assert(session@ == MainState { phase: MainPhase::Ended, ..before });
        match (phase, input) {
            (MainPhase::ExecWorkdir, MainInput::Outcome(Ok(_))) => session.at(
                MainPhase::ExecGitignore,
                MainAction::ApplyDefaultGitignore,
            ),
            (MainPhase::ExecWorkdir, MainInput::Outcome(Err(e))) => {
                let mut line = "error: resolve current directory: ".to_owned();
                line.append(e.as_str());
                let mut message = "resolve current directory: ".to_owned();
                message.append(e.as_str());
                session.last_words(MainAction::PrintError { line }, message)
            },
            (MainPhase::ExecGitignore, _) => {
                let command = session.codex_bin.clone();
                session.at(MainPhase::ExecBin, MainAction::ResolveCodexBin { command })
            },
            (MainPhase::ExecBin, MainInput::CodexBin(found)) => session.exec_bin(found),
            (MainPhase::ExecVerbosity, MainInput::Configured(Ok(configured))) => {
                session.exec_human(configured)
            },
            (MainPhase::ExecVerbosity, MainInput::Configured(Err(e))) => session.warn(
                "failed to load TUI verbosity",
                e,
                MainPhase::ExecWarn,
            ),
            (MainPhase::ExecWarn, _) => session.exec_human(None),
            (MainPhase::ExecRun, MainInput::ExitCode(code)) => session.at(
                MainPhase::Ended,
                MainAction::Exit { code },
            ),
            (MainPhase::ErrorToPreflight { message }, _) => session.at(
                MainPhase::LastWords,
                MainAction::WritePreflightError { message },
            ),
            (MainPhase::LastWords, _) => session.at(
                MainPhase::Ended,
                MainAction::Exit { code: 1 },
            ),
            (MainPhase::Workdir, MainInput::Outcome(Ok(_))) => {
                let command = session.codex_bin.clone();
                session.at(MainPhase::Bin, MainAction::ResolveCodexBin { command })
            },
            (MainPhase::Workdir, MainInput::Outcome(Err(e))) => session.fail(
                Some("resolve current directory"),
                e,
            ),
            (MainPhase::Bin, MainInput::CodexBin(Err(command))) => session.at(
                MainPhase::LastWords,
                MainAction::PrintStartupError { command },
            ),
            (MainPhase::Bin, MainInput::CodexBin(Ok(bin))) => {
                let serves = match &session.command {
                    Some(CliCommand::AppServer) => true,
                    _ => false,
                };
                let found = MainSession { codex_bin: bin, ..session };
                if serves {
                    found.at(MainPhase::ServerGitignore, MainAction::ApplyDefaultGitignore)
                } else {
                    found.at(MainPhase::Title, MainAction::SetTitle)
                }
            },
            (MainPhase::ServerGitignore, _) => session.at(
                MainPhase::ServerHome,
                MainAction::EnsureCompatHome,
            ),
            (MainPhase::ServerHome, MainInput::Outcome(Ok(_))) => session.serve(true),
            (MainPhase::ServerHome, MainInput::Outcome(Err(e))) => session.warn(
                "failed to configure codex-compat home",
                e,
                MainPhase::ServerWarn,
            ),
            (MainPhase::ServerWarn, _) => session.serve(false),
            (MainPhase::ServerRun, MainInput::Outcome(Ok(_))) => session.at(
                MainPhase::Ended,
                MainAction::Finish,
            ),
            (MainPhase::ServerRun, MainInput::Outcome(Err(e))) => session.fail(None, e),
            (MainPhase::Title, MainInput::Outcome(Ok(_))) => session.at(
                MainPhase::UpdateSetting,
                MainAction::ReadUpdateSetting,
            ),
            (MainPhase::Title, MainInput::Outcome(Err(e))) => session.warn(
                "failed to set terminal title",
                e,
                MainPhase::TitleWarn,
            ),
            (MainPhase::TitleWarn, _) => session.at(
                MainPhase::UpdateSetting,
                MainAction::ReadUpdateSetting,
            ),
            (MainPhase::UpdateSetting, MainInput::UpdateSetting(setting)) => {
                let check_for_update = match setting {
                    Some(check) => check,
                    None => true,
                };
                let session = MainSession { check_for_update, ..session };
                session.at(MainPhase::OpenUi, MainAction::OpenUi)
            },
            (MainPhase::OpenUi, MainInput::Outcome(Ok(_))) => session.at(
                MainPhase::Banner,
                MainAction::SetBanner,
            ),
            (MainPhase::OpenUi, MainInput::Outcome(Err(e))) => session.fail(None, e),
            (MainPhase::Banner, MainInput::Outcome(Ok(_))) => {
                let check = session.check_for_update;
                session.at(MainPhase::Update, MainAction::PromptUpdate { check })
            },
            (MainPhase::Banner, MainInput::Outcome(Err(e))) => session.fail(
                Some("resolve startup banner Codex model config"),
                e,
            ),
            (MainPhase::Update, MainInput::Update(Ok(Some(command)))) => {
                let announcement = startup::update_announcement(command.as_str());
                session.at(
                    MainPhase::Updating { command: command.clone() },
                    MainAction::RunUpdate { command, announcement },
                )
            },
            (MainPhase::Update, MainInput::Update(Ok(None))) => session.at(
                MainPhase::HidePrompt,
                MainAction::ReadHidePrompt,
            ),
            (MainPhase::Update, MainInput::Update(Err(e))) => session.fail(None, e),
            (MainPhase::Updating { command }, MainInput::Updated(result)) => session.updated(
                command,
                result,
            ),
            (MainPhase::UpdateReport, _) => session.at(MainPhase::Ended, MainAction::Finish),
            (MainPhase::HidePrompt, MainInput::HidePrompt(hide)) => session.config_read(hide),
            (MainPhase::HasEntry, MainInput::HasEntry(has_entry)) => session.gitignore_read(
                has_entry,
            ),
            (MainPhase::GitignoreWarn, _) => session.at(
                MainPhase::AsksVerbosity,
                MainAction::ReadAsksVerbosity,
            ),
            (MainPhase::AsksVerbosity, MainInput::AsksVerbosity(asks)) => {
                let session = MainSession { asks_verbosity: asks, ..session };
                session.set_up()
            },
            (MainPhase::AskGitignore, MainInput::Answer(answer)) => session.answered(answer),
            (MainPhase::EnsureGitignore, MainInput::Outcome(Ok(_))) => session.after_gitignore(),
            (MainPhase::EnsureGitignore, MainInput::Outcome(Err(e))) => session.warn(
                "failed to update global gitignore",
                e,
                MainPhase::AnswerWarn { clear: false },
            ),
            (MainPhase::PersistHide, MainInput::Outcome(Ok(_))) => session.after_gitignore(),
            (MainPhase::PersistHide, MainInput::Outcome(Err(e))) => session.warn(
                "failed to persist config",
                e,
                MainPhase::AnswerWarn { clear: false },
            ),
            (MainPhase::AnswerWarn { clear }, _) => if clear {
                session.at(MainPhase::ClearAfterGitignore, MainAction::ClearUi)
            } else {
                session.after_gitignore()
            },
            (MainPhase::ClearAfterGitignore, _) => session.after_gitignore(),
            (MainPhase::AskVerbosity, MainInput::Outcome(Ok(_))) => session.spawn(),
            (MainPhase::AskVerbosity, MainInput::Outcome(Err(e))) => session.warn(
                "startup verbosity prompt failed",
                e,
                MainPhase::VerbosityWarn,
            ),
            (MainPhase::VerbosityWarn, _) => session.at(
                MainPhase::ClearAfterVerbosity,
                MainAction::ClearUi,
            ),
            (MainPhase::ClearAfterVerbosity, _) => session.spawn(),
            (MainPhase::Spawn, MainInput::Outcome(Ok(_))) => session.at(
                MainPhase::Initialize,
                MainAction::Initialize,
            ),
            (MainPhase::Spawn, MainInput::Outcome(Err(e))) => session.fail(
                Some("spawn potter app-server"),
                e,
            ),
            (MainPhase::Initialize, MainInput::Outcome(Ok(_))) => session.ready(),
            (MainPhase::Initialize, MainInput::Outcome(Err(e))) => session.fail(
                Some("initialize potter app-server"),
                e,
            ),
            (MainPhase::List, MainInput::Listed(Ok(any_events))) => if any_events {
                session.fail(
                    None,
                    "internal error: unexpected events during project/list".to_owned(),
                )
            } else {
                session.at(MainPhase::Pick, MainAction::PickProject)
            },
            (MainPhase::List, MainInput::Listed(Err(e))) => session.fail(
                Some("project/list via potter app-server"),
                e,
            ),
            (MainPhase::Pick, MainInput::Picked(Ok(ResumePickerOutcome::StartFresh))) => {
                session.at(MainPhase::Queue, MainAction::RunQueue)
            },
            (MainPhase::Pick, MainInput::Picked(Ok(ResumePickerOutcome::Resume(path)))) => {
                session.resume(path)
            },
            (MainPhase::Pick, MainInput::Picked(Ok(ResumePickerOutcome::Exit))) => session.at(
                MainPhase::Ended,
                MainAction::Finish,
            ),
            (MainPhase::Pick, MainInput::Picked(Err(e))) => session.fail(None, e),
            (MainPhase::Resume, MainInput::Resumed(Ok(ResumeExit::Completed))) => session.at(
                MainPhase::WorkdirAfterResume,
                MainAction::ResolveWorkdir,
            ),
            (MainPhase::Resume, MainInput::Resumed(Ok(ResumeExit::UserRequested))) => {
                let path = session.project_path.clone();
                session.leave(path, true, false)
            },
            (MainPhase::Resume, MainInput::Resumed(Ok(ResumeExit::FatalExitRequested))) => {
                let path = session.project_path.clone();
                session.leave(path, true, true)
            },
            (MainPhase::Resume, MainInput::Resumed(Err(e))) => session.fail(
                Some("resume project"),
                e,
            ),
            (MainPhase::WorkdirAfterResume, MainInput::Outcome(Ok(_))) => session.at(
                MainPhase::Queue,
                MainAction::RunQueue,
            ),
            (MainPhase::WorkdirAfterResume, MainInput::Outcome(Err(e))) => session.fail(
                Some("resolve current directory after resume"),
                e,
            ),
            (MainPhase::Queue, MainInput::QueueEnded(Ok(ProjectQueueExit::Completed))) => {
                session.at(MainPhase::Shutdown, MainAction::Shutdown)
            },
            (
                MainPhase::Queue,
                MainInput::QueueEnded(Ok(ProjectQueueExit::UserRequestedExit { project_dir })),
            ) => session.leave(project_dir, false, false),
            (MainPhase::Queue, MainInput::QueueEnded(Err(e))) => session.fail(None, e),
            (MainPhase::TakeQueued { fatal }, MainInput::Queued { prompts, resume_path }) => {
                if fatal {
                    session.at(
                        MainPhase::Notes { fatal: true },
                        MainAction::PrintNotes { queued: prompts, resume_path },
                    )
                } else {
                    session.at(
                        MainPhase::ShutdownToNotes { queued: prompts, resume_path },
                        MainAction::Shutdown,
                    )
                }
            },
            (MainPhase::ShutdownToNotes { queued, resume_path }, _) => session.at(
                MainPhase::Notes { fatal: false },
                MainAction::PrintNotes { queued, resume_path },
            ),
            (MainPhase::Notes { fatal }, _) => if fatal {
                session.at(MainPhase::Ended, MainAction::Exit { code: 1 })
            } else {
                session.at(MainPhase::Ended, MainAction::Finish)
            },
            (MainPhase::Shutdown, _) => session.at(MainPhase::Ended, MainAction::Finish),
            (phase, _) => session.at(phase, MainAction::Finish),
        }
    }
}

/// An action that needs somebody at the terminal.
pub open spec fn needs_user(action: MainAction<Seq<char>, Seq<Seq<char>>>) -> bool {
    match action {
        MainAction::OpenUi => true,
        MainAction::SetBanner => true,
        MainAction::PromptUpdate { .. } => true,
        MainAction::PromptGitignore { .. } => true,
        MainAction::PromptVerbosity { .. } => true,
        MainAction::ClearUi => true,
        MainAction::PickProject => true,
        MainAction::RunResume { .. } => true,
        MainAction::RunQueue => true,
        _ => false,
    }
}

/// Where `exec` and `app-server` can be.
pub open spec fn on_course(s: MainState) -> bool {
    match s.command {
        Some(CommandFacts::Exec { .. }) => match s.phase {
            MainPhase::ExecWorkdir => true,
            MainPhase::ExecGitignore => true,
            MainPhase::ExecBin => true,
            MainPhase::ExecVerbosity => true,
            MainPhase::ExecWarn => true,
            MainPhase::ExecRun => true,
            MainPhase::ErrorToPreflight { .. } => writes_events(s.command),
            MainPhase::LastWords => true,
            MainPhase::Ended => true,
            _ => false,
        },
        Some(CommandFacts::AppServer) => match s.phase {
            MainPhase::Workdir => true,
            MainPhase::Bin => true,
            MainPhase::ServerGitignore => true,
            MainPhase::ServerHome => true,
            MainPhase::ServerWarn => true,
            MainPhase::ServerRun => true,
            MainPhase::LastWords => true,
            MainPhase::Ended => true,
            _ => false,
        },
        _ => true,
    }
}

/// `exec` and `app-server` start without somebody at the terminal.
pub proof fn law_headless_start(command: CommandFacts, codex_bin: Seq<char>, rounds: nat)
    requires
        !(command is Resume),
    ensures
        on_course(main_start(Some(command), codex_bin, rounds).0),
        !needs_user(main_start(Some(command), codex_bin, rounds).1),
{
}

/// `exec` and `app-server` go on without somebody at the terminal, whatever comes back from
/// outside.
pub proof fn law_headless_steps(s: MainState, input: MainInput<Seq<char>, Seq<Seq<char>>>)
    requires
        on_course(s),
        s.command matches Some(command) && !(command is Resume),
        fits(s.phase, input),
    ensures
        on_course(main_next(s, input).0),
        main_next(s, input).0.command == s.command,
        !needs_user(main_next(s, input).1),
{
}

/// A round budget that the protocol cannot carry ends every run but an `exec` before anything else
/// is done, and `exec` leaves it to the run of the project.
pub proof fn law_round_budget_is_checked_first(
    command: Option<CommandFacts>,
    codex_bin: Seq<char>,
    rounds: nat,
)
    requires
        rounds > u32::MAX,
    ensures
        command matches Some(CommandFacts::Exec { .. }) || main_start(command, codex_bin, rounds).1
            == (MainAction::<Seq<char>, Seq<Seq<char>>>::Fail {
            context: None,
            cause: rounds::round_budget_message(rounds),
        }),
{
}

/// An `exec --json` whose working directory or backend cannot be found prints the reason, writes it
/// as its one event, and exits with one.
pub proof fn law_json_preflight_failure_is_one_error(
    s: MainState,
    input: MainInput<Seq<char>, Seq<Seq<char>>>,
)
    requires
        writes_events(s.command),
        match s.phase {
            MainPhase::ExecWorkdir => input matches MainInput::Outcome(Err(_)),
            MainPhase::ExecBin => input matches MainInput::CodexBin(Err(_)),
            _ => false,
        },
    ensures
        ({
            let printed = main_next(s, input);
            let written = main_next(printed.0, MainInput::Done);
            let ended = main_next(written.0, MainInput::Done);
            &&& printed.1 is PrintError || printed.1 is PrintStartupError
            &&& written.1 is WritePreflightError
            &&& ended.1 == MainAction::<Seq<char>, Seq<Seq<char>>>::Exit { code: 1 }
            &&& ended.0.phase is Ended
        }),
{
}

/// A run that leaves a project behind prints the queued prompts and how to resume the project; it
/// shuts the app-server down first, unless the exit is a fatal one, which has the exit code one.
pub proof fn law_project_left_behind_is_noted(
    s: MainState,
    queued: Seq<Seq<char>>,
    resume_path: Seq<char>,
)
    requires
        s.phase is TakeQueued,
    ensures
        ({
            let notes = MainAction::<Seq<char>, Seq<Seq<char>>>::PrintNotes { queued, resume_path };
            let taken = main_next(s, MainInput::Queued { prompts: queued, resume_path });
            let next = main_next(taken.0, MainInput::Done);
            let last = main_next(next.0, MainInput::Done);
            if s.phase->TakeQueued_fatal {
                taken.1 == notes && next.1 == MainAction::<Seq<char>, Seq<Seq<char>>>::Exit {
                    code: 1,
                }
            } else {
                taken.1 is Shutdown && next.1 == notes && last.1 is Finish
            }
        }),
{
}

/// An action is read, mathematically, as what it is, with every text that it holds in its place.
pub proof fn law_action_is_read_as_it_is(action: MainAction<String, Vec<String>>)
    ensures
        match action {
            MainAction::ResolveWorkdir => action@ is ResolveWorkdir,
            MainAction::PrintError { line } => {
                &&& action@ is PrintError
                &&& action@->PrintError_line == line@
            },
            MainAction::PrintStartupError { command } => {
                &&& action@ is PrintStartupError
                &&& action@->PrintStartupError_command == command@
            },
            MainAction::WritePreflightError { message } => {
                &&& action@ is WritePreflightError
                &&& action@->WritePreflightError_message == message@
            },
            MainAction::ApplyDefaultGitignore => action@ is ApplyDefaultGitignore,
            MainAction::ResolveCodexBin { command } => {
                &&& action@ is ResolveCodexBin
                &&& action@->ResolveCodexBin_command == command@
            },
            MainAction::LoadVerbosity => action@ is LoadVerbosity,
            MainAction::RunExecJson { codex_bin, prompt } => {
                &&& action@ is RunExecJson
                &&& action@->RunExecJson_codex_bin == codex_bin@
                &&& action@->RunExecJson_prompt == text::opt_text(prompt)
            },
            MainAction::RunExecHuman { codex_bin, prompt, verbosity } => {
                &&& action@ is RunExecHuman
                &&& action@->RunExecHuman_codex_bin == codex_bin@
                &&& action@->RunExecHuman_prompt == text::opt_text(prompt)
                &&& action@->RunExecHuman_verbosity == verbosity
            },
            MainAction::EnsureCompatHome => action@ is EnsureCompatHome,
            MainAction::RunAppServer { codex_bin, with_compat_home } => {
                &&& action@ is RunAppServer
                &&& action@->RunAppServer_codex_bin == codex_bin@
                &&& action@->RunAppServer_with_compat_home == with_compat_home
            },
            MainAction::SetTitle => action@ is SetTitle,
            MainAction::ReadUpdateSetting => action@ is ReadUpdateSetting,
            MainAction::OpenUi => action@ is OpenUi,
            MainAction::SetBanner => action@ is SetBanner,
            MainAction::PromptUpdate { check } => {
                &&& action@ is PromptUpdate
                &&& action@->PromptUpdate_check == check
            },
            MainAction::RunUpdate { command, announcement } => {
                &&& action@ is RunUpdate
                &&& action@->RunUpdate_command == command@
                &&& action@->RunUpdate_announcement == announcement@
            },
            MainAction::PrintLine { line } => {
                &&& action@ is PrintLine
                &&& action@->PrintLine_line == line@
            },
            MainAction::ReadHidePrompt => action@ is ReadHidePrompt,
            MainAction::DetectGitignore => action@ is DetectGitignore,
            MainAction::ReadAsksVerbosity => action@ is ReadAsksVerbosity,
            MainAction::PromptGitignore { step } => {
                &&& action@ is PromptGitignore
                &&& action@->PromptGitignore_step == step
            },
            MainAction::EnsureGitignore => action@ is EnsureGitignore,
            MainAction::PersistHide => action@ is PersistHide,
            MainAction::ClearUi => action@ is ClearUi,
            MainAction::PromptVerbosity { step } => {
                &&& action@ is PromptVerbosity
                &&& action@->PromptVerbosity_step == step
            },
            MainAction::Spawn { codex_bin } => {
                &&& action@ is Spawn
                &&& action@->Spawn_codex_bin == codex_bin@
            },
            MainAction::Initialize => action@ is Initialize,
            MainAction::ListProjects => action@ is ListProjects,
            MainAction::PickProject => action@ is PickProject,
            MainAction::RunResume { project_path } => {
                &&& action@ is RunResume
                &&& action@->RunResume_project_path == project_path@
            },
            MainAction::RunQueue => action@ is RunQueue,
            MainAction::TakeQueuedPrompts { project_path, resumed } => {
                &&& action@ is TakeQueuedPrompts
                &&& action@->TakeQueuedPrompts_project_path == project_path@
                &&& action@->TakeQueuedPrompts_resumed == resumed
            },
            MainAction::Shutdown => action@ is Shutdown,
            MainAction::PrintNotes { queued, resume_path } => {
                &&& action@ is PrintNotes
                &&& action@->PrintNotes_queued == text::texts(queued@)
                &&& action@->PrintNotes_resume_path == resume_path@
            },
            MainAction::Fail { context, cause } => {
                &&& action@ is Fail
                &&& action@->Fail_context == text::opt_text(context)
                &&& action@->Fail_cause == cause@
            },
            MainAction::Finish => action@ is Finish,
            MainAction::Exit { code } => action@ is Exit && action@->Exit_code == code,
        },
{
}

/// A result is read, mathematically, as what it is, with every text that it holds in its place.
pub proof fn law_input_is_read_as_it_is(input: MainInput<String, Vec<String>>)
    ensures
        match input {
            MainInput::Done => input@ is Done,
            MainInput::Outcome(r) => input@ is Outcome && input@->Outcome_0 == failure(r),
            MainInput::CodexBin(r) => {
                &&& input@ is CodexBin
                &&& input@->CodexBin_0 == (match r {
                    Ok(bin) => Ok(bin@),
                    Err(command) => Err(command@),
                })
            },
            MainInput::Configured(r) => input@ is Configured && input@->Configured_0 == failure(r),
            MainInput::ExitCode(code) => input@ is ExitCode && input@->ExitCode_0 == code,
            MainInput::UpdateSetting(setting) => {
                &&& input@ is UpdateSetting
                &&& input@->UpdateSetting_0 == setting
            },
            MainInput::Update(r) => {
                &&& input@ is Update
                &&& input@->Update_0 == (match r {
                    Ok(command) => Ok(text::opt_text(command)),
                    Err(e) => Err(e@),
                })
            },
            MainInput::Updated(r) => {
                &&& input@ is Updated
                &&& input@->Updated_0 == (match r {
                    Ok((success, status)) => Ok((success, status@)),
                    Err(e) => Err(e@),
                })
            },
            MainInput::HidePrompt(r) => input@ is HidePrompt && input@->HidePrompt_0 == failure(r),
            MainInput::HasEntry(r) => input@ is HasEntry && input@->HasEntry_0 == failure(r),
            MainInput::AsksVerbosity(asks) => {
                &&& input@ is AsksVerbosity
                &&& input@->AsksVerbosity_0 == asks
            },
            MainInput::Answer(r) => input@ is Answer && input@->Answer_0 == failure(r),
            MainInput::Listed(r) => input@ is Listed && input@->Listed_0 == failure(r),
            MainInput::Picked(r) => {
                &&& input@ is Picked
                &&& input@->Picked_0 == (match r {
                    Ok(ResumePickerOutcome::StartFresh) => Ok(ResumePickerOutcome::StartFresh),
                    Ok(ResumePickerOutcome::Resume(path)) => Ok(
                        ResumePickerOutcome::Resume(path@),
                    ),
                    Ok(ResumePickerOutcome::Exit) => Ok(ResumePickerOutcome::Exit),
                    Err(e) => Err(e@),
                })
            },
            MainInput::Resumed(r) => input@ is Resumed && input@->Resumed_0 == failure(r),
            MainInput::QueueEnded(r) => {
                &&& input@ is QueueEnded
                &&& input@->QueueEnded_0 == (match r {
                    Ok(ProjectQueueExit::Completed) => Ok(ProjectQueueExit::Completed),
                    Ok(ProjectQueueExit::UserRequestedExit { project_dir }) => Ok(
                        ProjectQueueExit::UserRequestedExit { project_dir: project_dir@ },
                    ),
                    Err(e) => Err(e@),
                })
            },
            MainInput::Queued { prompts, resume_path } => {
                &&& input@ is Queued
                &&& input@->Queued_prompts == text::texts(prompts@)
                &&& input@->Queued_resume_path == resume_path@
            },
        },
{
}

/// A failure keeps its reason, and a success its value; what the program is asked to do is read as
/// what it is.
pub proof fn law_failure_keeps_its_reason<T>(value: T, reason: String, command: CliCommand)
    ensures
        failure(Ok::<T, String>(value)) == Ok::<T, Seq<char>>(value),
        failure(Err::<T, String>(reason)) == Err::<T, Seq<char>>(reason@),
        command_view(Some(command)) == Some(command@),
        command_view(None) == None::<CommandFacts>,
{
}

} // verus!
