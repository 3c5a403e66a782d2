//! Events of the `exec --json` stream.
//!
//! Every event is one line of JSON. Events that come out of the translation of an agent event
//! and mean nothing to the session are carried through unread.

use vstd::prelude::*;

use crate::protocol::PotterProjectOutcome;
use crate::text;

verus! {

/// How a project ended, as reported in the stream.
#[derive(Debug, Clone, Copy, PartialEq, Eq, Structural)]
pub enum PotterProjectCompletedOutcome {
    Succeeded,
    BudgetExhausted,
    TaskFailed,
    Fatal,
}

/// How a round ended, as reported in the stream.
#[derive(Debug, Clone, Copy, PartialEq, Eq, Structural)]
pub enum PotterRoundCompletedOutcome {
    Completed,
    Interrupted,
    UserRequested,
    TaskFailed,
    Fatal,
}

/// A failure, in words.
#[derive(Debug)]
pub struct ThreadErrorEvent {
    pub message: String,
}

/// A turn that ended in a failure.
#[derive(Debug)]
pub struct TurnFailedEvent {
    pub error: ThreadErrorEvent,
}

/// A project that was started.
#[derive(Debug)]
pub struct PotterProjectStartedEvent {
    pub working_dir: String,
    pub project_dir: String,
    pub progress_file: String,
    pub user_message: String,
    pub git_commit_start: String,
    pub git_branch: Option<String>,
}

/// A round that ended.
#[derive(Debug)]
pub struct PotterRoundCompletedEvent {
    pub outcome: PotterRoundCompletedOutcome,
    pub message: Option<String>,
}

/// A project that ended.
#[derive(Debug)]
pub struct PotterProjectCompletedEvent {
    pub outcome: PotterProjectCompletedOutcome,
    pub message: Option<String>,
    pub rounds_run: u32,
    pub rounds_total: u32,
    pub duration_secs: u64,
    pub progress_file: String,
    pub git_commit_start: String,
    pub git_commit_end: String,
    pub git_branch: Option<String>,
}

/// One event of the stream.
#[derive(Debug)]
pub enum ExecJsonlEvent {
    PotterProjectStarted(PotterProjectStartedEvent),
    PotterRoundCompleted(PotterRoundCompletedEvent),
    PotterProjectCompleted(PotterProjectCompletedEvent),
    TurnStarted(serde_json::Value),
    TurnCompleted(serde_json::Value),
    TurnFailed(TurnFailedEvent),
    Error(ThreadErrorEvent),
    Other(serde_json::Value),
}

/// The mathematical counterpart of [`ExecJsonlEvent`].
pub enum JsonlEvent {
    ProjectStarted {
        working_dir: Seq<char>,
        project_dir: Seq<char>,
        progress_file: Seq<char>,
        user_message: Seq<char>,
        git_commit_start: Seq<char>,
        git_branch: Option<Seq<char>>,
    },
    RoundCompleted { outcome: PotterRoundCompletedOutcome, message: Option<Seq<char>> },
    ProjectCompleted {
        outcome: PotterProjectCompletedOutcome,
        message: Option<Seq<char>>,
        rounds_run: u32,
        rounds_total: u32,
        duration_secs: u64,
        progress_file: Seq<char>,
        git_commit_start: Seq<char>,
        git_commit_end: Seq<char>,
        git_branch: Option<Seq<char>>,
    },
    TurnStarted { payload: serde_json::Value },
    TurnCompleted { payload: serde_json::Value },
    TurnFailed { message: Seq<char> },
    Error { message: Seq<char> },
    Other { payload: serde_json::Value },
}

impl View for ExecJsonlEvent {
    type V = JsonlEvent;

    open spec fn view(&self) -> JsonlEvent {
        match *self {
            ExecJsonlEvent::PotterProjectStarted(e) => JsonlEvent::ProjectStarted {
                working_dir: e.working_dir@,
                project_dir: e.project_dir@,
                progress_file: e.progress_file@,
                user_message: e.user_message@,
                git_commit_start: e.git_commit_start@,
                git_branch: text::opt_text(e.git_branch),
            },
            ExecJsonlEvent::PotterRoundCompleted(e) => JsonlEvent::RoundCompleted {
                outcome: e.outcome,
                message: text::opt_text(e.message),
            },
            ExecJsonlEvent::PotterProjectCompleted(e) => JsonlEvent::ProjectCompleted {
                outcome: e.outcome,
                message: text::opt_text(e.message),
                rounds_run: e.rounds_run,
                rounds_total: e.rounds_total,
                duration_secs: e.duration_secs,
                progress_file: e.progress_file@,
                git_commit_start: e.git_commit_start@,
                git_commit_end: e.git_commit_end@,
                git_branch: text::opt_text(e.git_branch),
            },
            ExecJsonlEvent::TurnStarted(v) => JsonlEvent::TurnStarted { payload: v },
            ExecJsonlEvent::TurnCompleted(v) => JsonlEvent::TurnCompleted { payload: v },
            ExecJsonlEvent::TurnFailed(e) => JsonlEvent::TurnFailed { message: e.error.message@ },
            ExecJsonlEvent::Error(e) => JsonlEvent::Error { message: e.message@ },
            ExecJsonlEvent::Other(v) => JsonlEvent::Other { payload: v },
        }
    }
}

impl Clone for ExecJsonlEvent {
    /// The same event.
    fn clone(&self) -> (r: Self)
        ensures
            r@ == self@,
    {
        match self {
            ExecJsonlEvent::PotterProjectStarted(e) => ExecJsonlEvent::PotterProjectStarted(
                PotterProjectStartedEvent {
                    working_dir: e.working_dir.clone(),
                    project_dir: e.project_dir.clone(),
                    progress_file: e.progress_file.clone(),
                    user_message: e.user_message.clone(),
                    git_commit_start: e.git_commit_start.clone(),
                    git_branch: text::copy_opt(&e.git_branch),
                },
            ),
            ExecJsonlEvent::PotterRoundCompleted(e) => ExecJsonlEvent::PotterRoundCompleted(
                PotterRoundCompletedEvent {
                    outcome: e.outcome,
                    message: text::copy_opt(&e.message),
                },
            ),
            ExecJsonlEvent::PotterProjectCompleted(e) => ExecJsonlEvent::PotterProjectCompleted(
                PotterProjectCompletedEvent {
                    outcome: e.outcome,
                    message: text::copy_opt(&e.message),
                    rounds_run: e.rounds_run,
                    rounds_total: e.rounds_total,
                    duration_secs: e.duration_secs,
                    progress_file: e.progress_file.clone(),
                    git_commit_start: e.git_commit_start.clone(),
                    git_commit_end: e.git_commit_end.clone(),
                    git_branch: text::copy_opt(&e.git_branch),
                },
            ),
            ExecJsonlEvent::TurnStarted(v) => ExecJsonlEvent::TurnStarted(v.clone()),
            ExecJsonlEvent::TurnCompleted(v) => ExecJsonlEvent::TurnCompleted(v.clone()),
            ExecJsonlEvent::TurnFailed(e) => ExecJsonlEvent::TurnFailed(
                TurnFailedEvent { error: ThreadErrorEvent { message: e.error.message.clone() } },
            ),
            ExecJsonlEvent::Error(e) => ExecJsonlEvent::Error(
                ThreadErrorEvent { message: e.message.clone() },
            ),
            ExecJsonlEvent::Other(v) => ExecJsonlEvent::Other(v.clone()),
        }
    }
}

/// How a project outcome is reported: the outcome of the stream, and the message beside it.
pub open spec fn reported(outcome: PotterProjectOutcome) -> (
    PotterProjectCompletedOutcome,
    Option<Seq<char>>,
) {
    match outcome {
        PotterProjectOutcome::Succeeded => (PotterProjectCompletedOutcome::Succeeded, None),
        PotterProjectOutcome::Interrupted => (
            PotterProjectCompletedOutcome::Fatal,
            Some("interrupted"@),
        ),
        PotterProjectOutcome::BudgetExhausted => (
            PotterProjectCompletedOutcome::BudgetExhausted,
            None,
        ),
        PotterProjectOutcome::TaskFailed { message } => (
            PotterProjectCompletedOutcome::TaskFailed,
            Some(message@),
        ),
        PotterProjectOutcome::Fatal { message } => (
            PotterProjectCompletedOutcome::Fatal,
            Some(message@),
        ),
    }
}

/// Report a project outcome.
pub fn exec_project_outcome(outcome: &PotterProjectOutcome) -> (r: (
    PotterProjectCompletedOutcome,
    Option<String>,
))
    ensures
        r.0 == reported(*outcome).0,
        text::opt_text(r.1) == reported(*outcome).1,
{
    match outcome {
        PotterProjectOutcome::Succeeded => (PotterProjectCompletedOutcome::Succeeded, None),
        PotterProjectOutcome::Interrupted => (
            PotterProjectCompletedOutcome::Fatal,
            Some("interrupted".to_owned()),
        ),
        PotterProjectOutcome::BudgetExhausted => (
            PotterProjectCompletedOutcome::BudgetExhausted,
            None,
        ),
        PotterProjectOutcome::TaskFailed { message } => (
            PotterProjectCompletedOutcome::TaskFailed,
            Some(message.clone()),
        ),
        PotterProjectOutcome::Fatal { message } => (
            PotterProjectCompletedOutcome::Fatal,
            Some(message.clone()),
        ),
    }
}

/// The exit code of a project that ended: zero for success alone.
pub open spec fn exit_code(outcome: PotterProjectCompletedOutcome) -> i32 {
    if outcome == PotterProjectCompletedOutcome::Succeeded {
        0
    } else {
        1
    }
}

/// [`exit_code`] of a reported outcome.
pub fn exit_code_of(outcome: PotterProjectCompletedOutcome) -> (r: i32)
    ensures
        r == exit_code(outcome),
{
    if outcome == PotterProjectCompletedOutcome::Succeeded {
        0
    } else {
        1
    }
}

/// An outcome is reported as what it was, with the reason that it gave, where it gave one; a
/// project that was interrupted is reported as failed. Success alone exits with zero.
pub proof fn law_outcome_is_reported(message: String, outcome: PotterProjectCompletedOutcome)
    ensures
        reported(PotterProjectOutcome::Succeeded) == (
            PotterProjectCompletedOutcome::Succeeded,
            None::<Seq<char>>,
        ),
        reported(PotterProjectOutcome::BudgetExhausted) == (
            PotterProjectCompletedOutcome::BudgetExhausted,
            None::<Seq<char>>,
        ),
        reported(PotterProjectOutcome::Interrupted) == (
            PotterProjectCompletedOutcome::Fatal,
            Some("interrupted"@),
        ),
        reported(PotterProjectOutcome::TaskFailed { message }) == (
            PotterProjectCompletedOutcome::TaskFailed,
            Some(message@),
        ),
        reported(PotterProjectOutcome::Fatal { message }) == (
            PotterProjectCompletedOutcome::Fatal,
            Some(message@),
        ),
        exit_code(outcome) == 0 <==> outcome is Succeeded,
        exit_code(outcome) == 0 || exit_code(outcome) == 1,
{
}

/// What an event of the stream says is what it holds, each in its place.
pub proof fn law_event_says_what_it_holds(
    started: PotterProjectStartedEvent,
    round: PotterRoundCompletedEvent,
    ended: PotterProjectCompletedEvent,
    failed: TurnFailedEvent,
    error: ThreadErrorEvent,
    payload: serde_json::Value,
)
    ensures
        ExecJsonlEvent::PotterProjectStarted(started)@ == (JsonlEvent::ProjectStarted {
            working_dir: started.working_dir@,
            project_dir: started.project_dir@,
            progress_file: started.progress_file@,
            user_message: started.user_message@,
            git_commit_start: started.git_commit_start@,
            git_branch: text::opt_text(started.git_branch),
        }),
        ExecJsonlEvent::PotterRoundCompleted(round)@ == (JsonlEvent::RoundCompleted {
            outcome: round.outcome,
            message: text::opt_text(round.message),
        }),
        ExecJsonlEvent::PotterProjectCompleted(ended)@ == (JsonlEvent::ProjectCompleted {
            outcome: ended.outcome,
            message: text::opt_text(ended.message),
            rounds_run: ended.rounds_run,
            rounds_total: ended.rounds_total,
            duration_secs: ended.duration_secs,
            progress_file: ended.progress_file@,
            git_commit_start: ended.git_commit_start@,
            git_commit_end: ended.git_commit_end@,
            git_branch: text::opt_text(ended.git_branch),
        }),
        ExecJsonlEvent::TurnFailed(failed)@ == (JsonlEvent::TurnFailed {
            message: failed.error.message@,
        }),
        ExecJsonlEvent::Error(error)@ == (JsonlEvent::Error { message: error.message@ }),
        ExecJsonlEvent::TurnStarted(payload)@ == (JsonlEvent::TurnStarted { payload }),
        ExecJsonlEvent::TurnCompleted(payload)@ == (JsonlEvent::TurnCompleted { payload }),
        ExecJsonlEvent::Other(payload)@ == (JsonlEvent::Other { payload }),
{
}

} // verus!
