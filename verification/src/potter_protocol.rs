//! JSON-RPC protocol of the project-level app-server.
//!
//! Requests and notifications carry a `method`, an `id` where an answer is expected, and
//! `params`. There is no `jsonrpc` field.

use std::path::PathBuf;
use std::time::Duration;

use vstd::prelude::*;

use crate::protocol::EventMsg;
use crate::protocol::PotterRoundOutcome;

verus! {

/// The method of notifications that carry an agent event.
pub const POTTER_EVENT_NOTIFICATION_METHOD: &'static str = "codex/event/potter";

/// Identifier that ties an answer to its request.
#[derive(Debug, Clone, PartialEq, Eq)]
pub enum RequestId {
    Text(String),
    Integer(i64),
}

/// The client, as it introduces itself.
#[derive(Debug, Clone, PartialEq)]
pub struct ClientInfo {
    pub name: String,
    pub title: Option<String>,
    pub version: String,
}

#[derive(Debug, Clone, PartialEq)]
pub struct InitializeParams {
    pub client_info: ClientInfo,
    pub capabilities: Option<serde_json::Value>,
}

/// Requests from a client.
#[derive(Debug, Clone, PartialEq)]
pub enum PotterAppServerClientRequest {
    Initialize { request_id: RequestId, params: InitializeParams },
    ProjectList { request_id: RequestId, params: ProjectListParams },
    ProjectStart { request_id: RequestId, params: ProjectStartParams },
    /// Resume an existing project for replay only: no new round starts.
    ProjectResume { request_id: RequestId, params: ProjectResumeParams },
    /// Start further rounds after a project was resumed.
    ProjectStartRounds { request_id: RequestId, params: ProjectStartRoundsParams },
    /// Interrupt the active project: gracefully at first, by force when it is asked again.
    ProjectInterrupt { request_id: RequestId, params: ProjectInterruptParams },
    /// Resolve an interrupted project: stop it, or go on.
    ProjectResolveInterrupt { request_id: RequestId, params: ProjectResolveInterruptParams },
}

/// Notifications from a client.
#[derive(Debug, Clone, PartialEq)]
pub enum PotterAppServerClientNotification {
    Initialized,
}

/// Which events the server forwards.
#[derive(Debug, Clone, Copy, PartialEq, Eq, Structural)]
pub enum PotterEventMode {
    /// For interactive rendering: events that mean nothing to the screen are left out.
    Interactive,
    /// For `exec --json`: the raw event stream, so that the translation can keep its own
    /// invariants.
    ExecJson,
}

impl Default for PotterEventMode {
    fn default() -> (r: Self)
        ensures
            r == PotterEventMode::Interactive,
    {
        PotterEventMode::Interactive
    }
}

#[derive(Debug, Clone, PartialEq, Eq)]
pub struct ProjectListParams {
    /// Working directory to search for projects; the server's own when omitted.
    pub cwd: Option<PathBuf>,
}

impl Default for ProjectListParams {
    fn default() -> (r: Self)
        ensures
            r.cwd is None,
    {
        ProjectListParams { cwd: None }
    }
}

#[derive(Debug, Clone, PartialEq, Eq)]
pub struct ProjectListResponse {
    pub projects: Vec<ProjectListEntry>,
}

#[derive(Debug, Clone, PartialEq, Eq)]
pub struct ProjectListEntry {
    /// Path to hand back when the project is resumed.
    pub project_path: PathBuf,
    pub user_request: String,
    pub created_at_unix_secs: u64,
    pub updated_at_unix_secs: u64,
    pub git_branch: Option<String>,
}

#[derive(Debug, Clone, PartialEq, Eq)]
pub struct ProjectStartParams {
    pub user_message: String,
    pub cwd: Option<PathBuf>,
    pub rounds: Option<u32>,
    pub strict_rounds: bool,
    pub event_mode: Option<PotterEventMode>,
}

#[derive(Debug, Clone, PartialEq, Eq)]
pub struct ProjectStartResponse {
    /// Identifier of the active project within the server process.
    pub project_id: String,
    pub working_dir: PathBuf,
    pub project_dir: PathBuf,
    pub progress_file_rel: PathBuf,
    pub progress_file: PathBuf,
    pub git_commit_start: String,
    pub git_branch: Option<String>,
    pub rounds_total: u32,
}

#[derive(Debug, Clone, PartialEq, Eq)]
pub struct ProjectResumeParams {
    pub project_path: PathBuf,
    pub cwd: Option<PathBuf>,
    pub event_mode: Option<PotterEventMode>,
}

#[derive(Debug)]
pub struct ProjectResumeResponse {
    pub project_id: String,
    pub working_dir: PathBuf,
    pub project_dir: PathBuf,
    pub progress_file_rel: PathBuf,
    pub progress_file: PathBuf,
    pub git_branch: Option<String>,
    pub replay: ProjectResumeReplay,
    pub unfinished_round: Option<ProjectResumeUnfinishedRound>,
}

/// History of a resumed project: no tool is run again, and no round starts.
#[derive(Debug)]
pub struct ProjectResumeReplay {
    pub completed_rounds: Vec<ProjectResumeReplayRound>,
}

#[derive(Debug)]
pub struct ProjectResumeReplayRound {
    pub outcome: PotterRoundOutcome,
    pub events: Vec<EventMsg>,
}

#[derive(Debug)]
pub struct ProjectResumeUnfinishedRound {
    pub round_current: u32,
    pub round_total: u32,
    /// Boundary events to render before asking what to do next.
    pub pre_action_events: Vec<EventMsg>,
    /// Rounds that remain if the user chooses to continue.
    pub remaining_rounds_including_current: u32,
}

#[derive(Debug, Clone, Copy, PartialEq, Eq, Structural)]
pub enum ResumePolicy {
    ContinueUnfinishedRound,
    StartNewRound,
}

impl Default for ResumePolicy {
    fn default() -> (r: Self)
        ensures
            r == ResumePolicy::ContinueUnfinishedRound,
    {
        ResumePolicy::ContinueUnfinishedRound
    }
}

#[derive(Debug, Clone, PartialEq, Eq)]
pub struct ProjectStartRoundsParams {
    pub project_id: String,
    pub rounds: Option<u32>,
    pub strict_rounds: bool,
    pub resume_policy: Option<ResumePolicy>,
    pub event_mode: Option<PotterEventMode>,
}

#[derive(Debug, Clone, PartialEq, Eq)]
pub struct ProjectStartRoundsResponse {
    pub rounds_total: u32,
}

#[derive(Debug, Clone, PartialEq, Eq)]
pub struct ProjectInterruptParams {
    pub project_id: String,
}

#[derive(Debug, Clone, Copy, PartialEq, Eq, Structural)]
pub enum ResolveInterruptAction {
    Stop,
    Continue,
}

#[derive(Debug, Clone, PartialEq, Eq)]
pub struct ProjectResolveInterruptParams {
    pub project_id: String,
    pub action: ResolveInterruptAction,
    /// Prompt of the next turn; needed to continue.
    pub turn_prompt_override: Option<String>,
}

#[derive(Debug, Clone, PartialEq, Eq)]
pub struct InterruptedProjectSummary {
    pub rounds: u32,
    pub duration: Duration,
    pub user_prompt_file: PathBuf,
    pub git_commit_start: String,
    pub git_commit_end: String,
}

#[derive(Debug, Clone, PartialEq, Eq)]
pub struct ProjectResolveInterruptResponse {
    pub summary: Option<InterruptedProjectSummary>,
}

} // verus!
