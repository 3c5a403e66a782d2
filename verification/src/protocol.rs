//! The protocol of a session between a client and an agent: operations submitted by the client,
//! and events sent back by the agent.
//!
//! Paths, durations and free-form JSON are carried through unread.

use std::collections::HashMap;
use std::path::PathBuf;
use std::time::Duration;

use vstd::prelude::*;

use crate::token_usage::TokenUsageInfo;

verus! {

/// `std::path::PathBuf`, carried through as an opaque value.
#[verifier::external_type_specification]
#[verifier::external_body]
pub struct ExPathBuf(std::path::PathBuf);

/// `serde_json::Value`, carried through as an opaque value.
#[verifier::external_type_specification]
#[verifier::external_body]
pub struct ExJsonValue(serde_json::Value);

/// `PathBuf::clone` gives the same path.
pub assume_specification[ <std::path::PathBuf as Clone>::clone ](
    p: &std::path::PathBuf,
) -> (r: std::path::PathBuf)
    ensures
        r == *p,
;

/// `Duration::clone` gives the same duration.
pub assume_specification[ <std::time::Duration as Clone>::clone ](
    d: &std::time::Duration,
) -> (r: std::time::Duration)
    ensures
        r == *d,
;

/// `serde_json::Value::clone` gives the same JSON value.
pub assume_specification[ <serde_json::Value as Clone>::clone ](
    v: &serde_json::Value,
) -> (r: serde_json::Value)
    ensures
        r == *v,
;

/// Identifier of a conversation thread.
#[derive(Debug, Clone, PartialEq, Eq, Hash)]
pub struct ThreadId {
    pub value: String,
}

/// The effort the model puts into reasoning, by the label that names it (such as `medium`).
#[derive(Debug, Clone, PartialEq, Eq)]
pub struct ReasoningEffort {
    pub label: String,
}

/// One item of user input.
#[derive(Debug, Clone, PartialEq)]
pub enum UserInput {
    Text { text: String, text_elements: Vec<serde_json::Value> },
}

/// A request to answer questions, which needs somebody at the terminal.
#[derive(Debug, Clone)]
pub struct RequestUserInputEvent {
    pub call_id: String,
}

/// A request for input on behalf of an MCP server, which needs somebody at the terminal.
#[derive(Debug, Clone)]
pub struct ElicitationRequestEvent {
    pub server_name: String,
    pub id: String,
}

/// An event payload that is handed on as it came.
#[derive(Debug, Clone)]
pub struct OpaquePayload {
    pub value: serde_json::Value,
}

/// Submission operation
#[derive(Debug, Clone, PartialEq)]
pub enum Op {
    /// Abort current task.
    /// This server sends [`EventMsg::TurnAborted`] in response.
    Interrupt,

    /// Input from the user
    UserInput {
        /// User input items, see `InputItem`
        items: Vec<UserInput>,
        /// Optional JSON Schema used to constrain the final assistant message for this turn.
        final_output_json_schema: Option<serde_json::Value>,
    },

    /// Request a single history entry identified by `log_id` + `offset`.
    GetHistoryEntryRequest { offset: usize, log_id: u64 },
}

/// Event Queue Entry - events from agent
#[derive(Debug)]
pub struct Event {
    /// Submission `id` that this event is correlated with.
    pub id: String,
    /// Payload
    pub msg: EventMsg,
}

/// Response event from the agent
#[derive(Debug)]
pub enum EventMsg {
    /// Error while executing a submission
    Error(ErrorEvent),

    /// Warning issued while processing a submission. Unlike `Error`, this
    /// indicates the turn continued but the user should still be notified.
    Warning(WarningEvent),

    /// Notification that a model stream experienced an error or disconnect and the system is
    /// handling it (for example retrying with backoff).
    StreamError(StreamErrorEvent),

    /// Conversation history was compacted (either automatically or manually).
    ContextCompacted(ContextCompactedEvent),

    /// Conversation history was rolled back by dropping the last N user turns.
    ThreadRolledBack(ThreadRolledBackEvent),

    /// Agent has started a turn.
    TurnStarted(TurnStartedEvent),

    /// Agent has completed all actions.
    TurnComplete(TurnCompleteEvent),

    TurnAborted(TurnAbortedEvent),

    /// Usage update for the current session, including totals and last turn.
    /// Optional means unknown — UIs should not display when `None`.
    TokenCount(TokenCountEvent),

    /// Agent text output message
    AgentMessage(AgentMessageEvent),

    /// Agent text output delta message
    AgentMessageDelta(AgentMessageDeltaEvent),

    /// Streaming proposed plan text from a `<proposed_plan>` block.
    PlanDelta(PlanDeltaEvent),

    /// Reasoning event from agent.
    AgentReasoning(AgentReasoningEvent),

    /// Agent reasoning delta event from agent.
    AgentReasoningDelta(AgentReasoningDeltaEvent),

    /// Raw chain-of-thought from agent.
    AgentReasoningRawContent(AgentReasoningRawContentEvent),

    /// Agent reasoning content delta event from agent.
    AgentReasoningRawContentDelta(AgentReasoningRawContentDeltaEvent),
    /// Signaled when the model begins a new reasoning summary section (e.g., a new titled block).
    AgentReasoningSectionBreak(AgentReasoningSectionBreakEvent),

    /// Ack the client's configure message.
    SessionConfigured(SessionConfiguredEvent),

    /// `codex-potter` project started (outside of the app-server protocol).
    PotterProjectStarted {
        /// Optional user prompt that starts the project.
        user_message: Option<String>,
        /// Working directory where `codex-potter` was launched.
        working_dir: PathBuf,
        /// Project directory containing CodexPotter progress files.
        project_dir: PathBuf,
        /// User prompt file for this CodexPotter project (e.g. `.codexpotter/projects/.../MAIN.md`).
        user_prompt_file: PathBuf,
    },

    /// `codex-potter` round started (outside of the app-server protocol).
    PotterRoundStarted {
        current: u32,
        total: u32,
    },

    /// `codex-potter` round finished (outside of the app-server protocol).
    ///
    /// CodexPotter can issue multiple upstream `turn/start` calls within the same round when
    /// recovering from transient stream/network failures. The control plane emits this marker
    /// exactly once to signal that the round is finished and the UI should exit the round renderer
    /// with the provided outcome.
    PotterRoundFinished {
        outcome: PotterRoundOutcome,
    },

    /// `codex-potter` stream recovery update.
    ///
    /// When the model stream disconnects mid-turn and CodexPotter decides to recover by issuing
    /// a follow-up `continue` prompt, the backend emits this event so the TUI can render a
    /// CodexPotter retry block (separate from upstream `StreamError` status-indicator updates)
    /// without inferring control-plane state.
    PotterStreamRecoveryUpdate {
        /// 1-based attempt number within the current continuous-error streak.
        attempt: u32,
        /// Maximum number of attempts allowed before giving up. `0` means unlimited retries.
        max_attempts: u32,
        /// The retryable error message that triggered this update.
        error_message: String,
    },

    /// `codex-potter` stream recovery finished successfully (activity observed).
    ///
    /// This event exists to let the UI clear any transient retry indicators. Successful recoveries
    /// should not be surfaced as persistent transcript items.
    PotterStreamRecoveryRecovered,

    /// `codex-potter` stream recovery gave up after exhausting retries.
    PotterStreamRecoveryGaveUp {
        /// The retryable error message that caused the session to give up.
        error_message: String,
        /// Total attempts made within the continuous-error streak.
        attempts: u32,
        /// Maximum number of attempts allowed before giving up. `0` means unlimited retries.
        max_attempts: u32,
    },

    /// `codex-potter` project finished successfully (outside of the app-server protocol).
    PotterProjectSucceeded {
        /// Total number of rounds rendered for this CodexPotter project.
        rounds: u32,
        /// Total wall time spent across all rounds.
        duration: Duration,
        /// User prompt file for this CodexPotter project (e.g. `.codexpotter/projects/.../MAIN.md`).
        user_prompt_file: PathBuf,
        /// Git commit before CodexPotter started mutating the workspace (empty when unavailable).
        git_commit_start: String,
        /// Git commit after CodexPotter finished (empty when unavailable).
        git_commit_end: String,
    },

    /// `codex-potter` project ran out of the configured round budget (outside of the app-server protocol).
    ///
    /// This event exists so interactive UIs can render a final summary block even when the project
    /// terminates without `finite_incantatem: true` (i.e. without emitting `PotterProjectSucceeded`).
    PotterProjectBudgetExhausted {
        /// Total number of rounds rendered for this CodexPotter project.
        rounds: u32,
        /// Total wall time spent across all rounds.
        duration: Duration,
        /// User prompt file for this CodexPotter project (e.g. `.codexpotter/projects/.../MAIN.md`).
        user_prompt_file: PathBuf,
        /// Git commit before CodexPotter started mutating the workspace (empty when unavailable).
        git_commit_start: String,
        /// Git commit after CodexPotter finished (empty when unavailable).
        git_commit_end: String,
    },

    /// `codex-potter` project completed (outside of the app-server protocol).
    ///
    /// This marker is emitted exactly once at the end of a project run so clients can exit a
    /// project-level render loop without having to re-implement CodexPotter's multi-round
    /// stop conditions.
    PotterProjectCompleted {
        outcome: PotterProjectOutcome,
    },

    /// `codex-potter` project is interrupted and waiting for user action (outside of the
    /// app-server protocol).
    ///
    /// This marker is emitted when the current round finishes due to a user interrupt (Esc),
    /// and CodexPotter pauses the project until the caller resolves the interruption.
    PotterProjectInterrupted {
        /// Unique identifier for the active project within the server process.
        project_id: String,
        /// User prompt file for this CodexPotter project (e.g. `.codexpotter/projects/.../MAIN.md`).
        user_prompt_file: PathBuf,
    },

    WebSearchEnd(WebSearchEndEvent),

    /// Notification that the server is about to execute a command.
    ExecCommandBegin(ExecCommandBeginEvent),

    /// Terminal interaction for an in-progress command (stdin sent and stdout observed).
    TerminalInteraction(TerminalInteractionEvent),

    ExecCommandEnd(ExecCommandEndEvent),

    /// Notification that the agent attached a local image via the view_image tool.
    ViewImageToolCall(ViewImageToolCallEvent),

    ExecApprovalRequest(OpaquePayload),

    RequestPermissions(OpaquePayload),

    RequestUserInput(RequestUserInputEvent),

    ElicitationRequest(ElicitationRequestEvent),

    ApplyPatchApprovalRequest(OpaquePayload),

    /// Structured lifecycle event for a guardian-reviewed approval request.
    GuardianAssessment(OpaquePayload),

    /// Notification advising the user that something they are using has been
    /// deprecated and should be phased out.
    DeprecationNotice(DeprecationNoticeEvent),

    BackgroundEvent(BackgroundEventEvent),

    /// Notification that the agent is about to apply a code patch.
    PatchApplyBegin(PatchApplyBeginEvent),

    /// Notification that a patch application has finished.
    PatchApplyEnd(PatchApplyEndEvent),

    /// Notification that a hook run has started.
    HookStarted(HookStartedEvent),

    /// Notification that a hook run has completed.
    HookCompleted(HookCompletedEvent),

    PlanUpdate(OpaquePayload),

    /// Collab interaction: agent spawn begin.
    CollabAgentSpawnBegin(CollabAgentSpawnBeginEvent),
    /// Collab interaction: agent spawn end.
    CollabAgentSpawnEnd(CollabAgentSpawnEndEvent),
    /// Collab interaction: agent interaction begin.
    CollabAgentInteractionBegin(CollabAgentInteractionBeginEvent),
    /// Collab interaction: agent interaction end.
    CollabAgentInteractionEnd(CollabAgentInteractionEndEvent),
    /// Collab interaction: waiting begin.
    CollabWaitingBegin(CollabWaitingBeginEvent),
    /// Collab interaction: waiting end.
    CollabWaitingEnd(CollabWaitingEndEvent),
    /// Collab interaction: close begin.
    CollabCloseBegin(CollabCloseBeginEvent),
    /// Collab interaction: close end.
    CollabCloseEnd(CollabCloseEndEvent),
    /// Collab interaction: resume begin.
    CollabResumeBegin(CollabResumeBeginEvent),
    /// Collab interaction: resume end.
    CollabResumeEnd(CollabResumeEndEvent),

    /// Notification that the agent is shutting down.
    ShutdownComplete,
    Unknown,
}

#[derive(Debug, Clone, PartialEq, Eq)]
pub enum PotterRoundOutcome {
    Completed,
    /// The round was interrupted by the user (Esc).
    Interrupted,
    UserRequested,
    TaskFailed {
        message: String,
    },
    Fatal {
        message: String,
    },
}

#[derive(Debug, Clone, PartialEq, Eq)]
pub enum PotterProjectOutcome {
    Succeeded,
    /// The project was stopped by the user after an interrupt (Esc).
    Interrupted,
    BudgetExhausted,
    TaskFailed {
        message: String,
    },
    Fatal {
        message: String,
    },
}

/// Codex errors that we expose to clients.
#[derive(Clone, Debug, PartialEq, Eq)]
pub enum CodexErrorInfo {
    ContextWindowExceeded,
    UsageLimitExceeded,
    ServerOverloaded,
    HttpConnectionFailed {
        http_status_code: Option<u16>,
    },
    /// Failed to connect to the response SSE stream.
    ResponseStreamConnectionFailed {
        http_status_code: Option<u16>,
    },
    InternalServerError,
    Unauthorized,
    BadRequest,
    SandboxError,
    /// The response SSE stream disconnected in the middle of a turnbefore completion.
    ResponseStreamDisconnected {
        http_status_code: Option<u16>,
    },
    /// Reached the retry limit for responses.
    ResponseTooManyFailedAttempts {
        http_status_code: Option<u16>,
    },
    ThreadRollbackFailed,
    Other,
}

#[derive(Debug, Clone)]
pub struct ErrorEvent {
    pub message: String,
    pub codex_error_info: Option<CodexErrorInfo>,
}

#[derive(Debug, Clone)]
pub struct WarningEvent {
    pub message: String,
}

/// Notification describing a transient stream/network failure while the system is retrying.
#[derive(Debug, Clone)]
pub struct StreamErrorEvent {
    pub message: String,
    pub codex_error_info: Option<CodexErrorInfo>,
    pub additional_details: Option<String>,
}

#[derive(Debug, Clone)]
pub struct ContextCompactedEvent;

#[derive(Debug, Clone)]
pub struct ThreadRolledBackEvent {
    /// Number of user turns that were removed from context.
    pub num_turns: u32,
}

#[derive(Debug, Clone)]
pub struct TurnCompleteEvent {
    /// Turn identifier; empty when the sender is too old to give one.
    pub turn_id: String,
    pub last_agent_message: Option<String>,
}

#[derive(Debug, Clone)]
pub struct TurnStartedEvent {
    /// Turn identifier; empty when the sender is too old to give one.
    pub turn_id: String,
    pub model_context_window: Option<i64>,
}

#[derive(Debug, Clone)]
pub struct TokenCountEvent {
    pub info: Option<TokenUsageInfo>,
    pub rate_limits: Option<RateLimitSnapshot>,
}

#[derive(Debug, Clone, PartialEq)]
pub struct RateLimitSnapshot {
    pub primary: Option<RateLimitWindow>,
    pub secondary: Option<RateLimitWindow>,
    pub credits: Option<CreditsSnapshot>,
    pub plan_type: Option<PlanType>,
}

#[derive(Copy, Clone, Debug, PartialEq, Eq)]
pub enum PlanType {
    Free,
    Go,
    Plus,
    Pro,
    Team,
    Business,
    Enterprise,
    Edu,
    Unknown,
}

/// Runtime service tier currently active for the session.
#[derive(Copy, Clone, Debug, PartialEq, Eq)]
pub enum ServiceTier {
    Fast,
    Flex,
}

#[derive(Debug, Clone)]
pub struct RateLimitWindow {
    /// Percentage (0-100) of the window that has been consumed, as the bits of a binary64 number.
    pub used_percent_bits: u64,
    /// Rolling window duration, in minutes.
    pub window_minutes: Option<i64>,
    /// Unix timestamp (seconds since epoch) when the window resets.
    pub resets_at: Option<i64>,
}

/// Two binary64 numbers are equal, from their bits: a zero equals either zero, and what is no number
/// equals nothing.
pub open spec fn same_number(a: u64, b: u64) -> bool {
    let magnitude = |bits: u64| bits % 0x8000_0000_0000_0000;
    &&& magnitude(a) <= 0x7ff0_0000_0000_0000
    &&& magnitude(b) <= 0x7ff0_0000_0000_0000
    &&& a == b || (magnitude(a) == 0 && magnitude(b) == 0)
}

impl PartialEq for RateLimitWindow {
    fn eq(&self, other: &RateLimitWindow) -> (r: bool) {
        let a = self.used_percent_bits;
        let b = other.used_percent_bits;
        let size_a: u64 = a % 0x8000_0000_0000_0000;
        let size_b: u64 = b % 0x8000_0000_0000_0000;
        let infinity: u64 = 0x7ff0_0000_0000_0000;
        let same = size_a <= infinity && size_b <= infinity && (a == b || (size_a == 0 && size_b
            == 0));
        same && self.window_minutes == other.window_minutes && self.resets_at == other.resets_at
    }
}

impl vstd::std_specs::cmp::PartialEqSpecImpl for RateLimitWindow {
    open spec fn obeys_eq_spec() -> bool {
        true
    }

    open spec fn eq_spec(&self, other: &RateLimitWindow) -> bool {
        &&& same_number(self.used_percent_bits, other.used_percent_bits)
        &&& self.window_minutes == other.window_minutes
        &&& self.resets_at == other.resets_at
    }
}

#[derive(Debug, Clone, PartialEq)]
pub struct CreditsSnapshot {
    pub has_credits: bool,
    pub unlimited: bool,
    pub balance: Option<String>,
}

#[derive(Debug, Clone)]
pub struct AgentMessageEvent {
    pub message: String,
    pub phase: Option<String>,
}

#[derive(Debug, Clone)]
pub struct AgentMessageDeltaEvent {
    pub delta: String,
}

#[derive(Debug, Clone)]
pub struct PlanDeltaEvent {
    pub delta: String,
}

#[derive(Debug, Clone)]
pub struct AgentReasoningEvent {
    pub text: String,
}

#[derive(Debug, Clone)]
pub struct AgentReasoningRawContentEvent {
    pub text: String,
}

#[derive(Debug, Clone)]
pub struct AgentReasoningRawContentDeltaEvent {
    pub delta: String,
}

#[derive(Debug, Clone)]
pub struct AgentReasoningSectionBreakEvent {
    pub item_id: String,
    pub summary_index: i64,
}

#[derive(Debug, Clone)]
pub struct AgentReasoningDeltaEvent {
    pub delta: String,
}

#[derive(Debug, Clone)]
pub struct WebSearchEndEvent {
    pub call_id: String,
    pub query: String,
}

#[derive(Debug, Clone, Copy, PartialEq, Eq)]
pub enum ExecCommandSource {
    Agent,
    UserShell,
    UnifiedExecStartup,
    UnifiedExecInteraction,
}

#[derive(Debug, Clone)]
pub struct ExecCommandBeginEvent {
    /// Identifier so this can be paired with the ExecCommandEnd event.
    pub call_id: String,
    /// Identifier for the underlying PTY process (when available).
    pub process_id: Option<String>,
    /// Turn ID that this command belongs to.
    pub turn_id: String,
    /// The command to be executed.
    pub command: Vec<String>,
    /// The command's working directory.
    pub cwd: PathBuf,
    pub parsed_cmd: Vec<serde_json::Value>,
    /// Where the command originated. Defaults to Agent for backward compatibility.
    pub source: ExecCommandSource,
    /// Raw input sent to a unified exec session (if this is an interaction event).
    pub interaction_input: Option<String>,
}

#[derive(Debug, Clone)]
pub struct ExecCommandEndEvent {
    /// Identifier for the ExecCommandBegin that finished.
    pub call_id: String,
    /// Identifier for the underlying PTY process (when available).
    pub process_id: Option<String>,
    /// Turn ID that this command belongs to.
    pub turn_id: String,
    /// The command that was executed.
    pub command: Vec<String>,
    /// The command's working directory if not the default cwd for the agent.
    pub cwd: PathBuf,
    pub parsed_cmd: Vec<serde_json::Value>,
    /// Where the command originated. Defaults to Agent for backward compatibility.
    pub source: ExecCommandSource,
    /// Raw input sent to a unified exec session (if this is an interaction event).
    pub interaction_input: Option<String>,

    /// Captured stdout
    pub stdout: String,
    /// Captured stderr
    pub stderr: String,
    /// Captured aggregated output
    pub aggregated_output: String,
    /// The command's exit code.
    pub exit_code: i32,
    /// The duration of the command execution.
    pub duration: Duration,
    /// Formatted output from the command, as seen by the model.
    pub formatted_output: String,
}

#[derive(Debug, Clone)]
pub struct ViewImageToolCallEvent {
    /// Identifier for the originating tool call.
    pub call_id: String,
    /// Local filesystem path provided to the tool.
    pub path: PathBuf,
}

#[derive(Debug, Clone, PartialEq, Eq)]
pub struct TerminalInteractionEvent {
    /// Identifier for the ExecCommandBegin that produced this interaction.
    pub call_id: String,
    /// Process id associated with the running command.
    pub process_id: String,
    /// Stdin sent to the running session.
    pub stdin: String,
}

#[derive(Debug, Clone)]
pub struct BackgroundEventEvent {
    pub message: String,
}

#[derive(Debug, Clone)]
pub struct DeprecationNoticeEvent {
    /// Concise summary of what is deprecated.
    pub summary: String,
    /// Optional extra guidance, such as migration steps or rationale.
    pub details: Option<String>,
}

#[derive(Debug, Clone)]
pub struct PatchApplyBeginEvent {
    /// Identifier so this can be paired with the PatchApplyEnd event.
    pub call_id: String,
    /// Turn ID that this patch belongs to; empty when the sender is too old to give one.
    pub turn_id: String,
    /// If true, there was no ApplyPatchApprovalRequest for this patch.
    pub auto_approved: bool,
    /// The changes to be applied.
    pub changes: HashMap<PathBuf, FileChange>,
}

#[derive(Debug, Clone)]
pub struct PatchApplyEndEvent {
    /// Identifier for the PatchApplyBegin that finished.
    pub call_id: String,
    /// Turn ID that this patch belongs to; empty when the sender is too old to give one.
    pub turn_id: String,
    /// Captured stdout (summary printed by apply_patch).
    pub stdout: String,
    /// Captured stderr (parser errors, IO failures, etc.).
    pub stderr: String,
    /// Whether the patch was applied successfully.
    pub success: bool,
    /// The changes that were applied.
    pub changes: HashMap<PathBuf, FileChange>,
}

#[derive(Debug, Clone, Copy, PartialEq, Eq)]
pub enum HookEventName {
    PreToolUse,
    PostToolUse,
    SessionStart,
    UserPromptSubmit,
    Stop,
}

#[derive(Debug, Clone, Copy, PartialEq, Eq)]
pub enum HookHandlerType {
    Command,
    Prompt,
    Agent,
}

#[derive(Debug, Clone, Copy, PartialEq, Eq)]
pub enum HookExecutionMode {
    Sync,
    Async,
}

#[derive(Debug, Clone, Copy, PartialEq, Eq)]
pub enum HookScope {
    Thread,
    Turn,
}

#[derive(Debug, Clone, Copy, PartialEq, Eq)]
pub enum HookRunStatus {
    Running,
    Completed,
    Failed,
    Blocked,
    Stopped,
}

#[derive(Debug, Clone, Copy, PartialEq, Eq)]
pub enum HookOutputEntryKind {
    Warning,
    Stop,
    Feedback,
    Context,
    Error,
}

#[derive(Debug, Clone, PartialEq, Eq)]
pub struct HookOutputEntry {
    pub kind: HookOutputEntryKind,
    pub text: String,
}

#[derive(Debug, Clone, PartialEq, Eq)]
pub struct HookRunSummary {
    pub id: String,
    pub event_name: HookEventName,
    pub handler_type: HookHandlerType,
    pub execution_mode: HookExecutionMode,
    pub scope: HookScope,
    pub source_path: PathBuf,
    pub display_order: i64,
    pub status: HookRunStatus,
    pub status_message: Option<String>,
    pub started_at: i64,
    pub completed_at: Option<i64>,
    pub duration_ms: Option<i64>,
    pub entries: Vec<HookOutputEntry>,
}

#[derive(Debug, Clone, PartialEq, Eq)]
pub struct HookStartedEvent {
    pub turn_id: Option<String>,
    pub run: HookRunSummary,
}

#[derive(Debug, Clone, PartialEq, Eq)]
pub struct HookCompletedEvent {
    pub turn_id: Option<String>,
    pub run: HookRunSummary,
}

#[derive(Debug)]
pub struct SessionConfiguredEvent {
    /// Name left as session_id instead of thread_id for backwards compatibility.
    pub session_id: ThreadId,
    pub forked_from_id: Option<ThreadId>,

    /// Tell the client what model is being queried.
    pub model: String,

    pub model_provider_id: String,

    /// Runtime service tier resolved by the backend for this session.
    pub service_tier: Option<ServiceTier>,

    /// Working directory that should be treated as the *root* of the
    /// session.
    pub cwd: PathBuf,

    /// The effort the model is putting into reasoning about the user's request.
    pub reasoning_effort: Option<ReasoningEffort>,

    /// Identifier of the history log file (inode on Unix, 0 otherwise).
    pub history_log_id: u64,

    /// Current number of entries in the history log.
    pub history_entry_count: usize,

    /// Optional initial messages (as events) for resumed sessions.
    /// When present, UIs can use these to seed the history.
    pub initial_messages: Option<Vec<EventMsg>>,

    pub rollout_path: PathBuf,
}

/// Proposed execpolicy change to allow commands starting with this prefix.
///
/// The `command` tokens form the prefix that would be added as an execpolicy
/// `prefix_rule(..., decision="allow")`, letting the agent bypass approval for
/// commands that start with this token sequence.
#[derive(Debug, Clone, PartialEq, Eq)]
pub struct ExecPolicyAmendment {
    pub command: Vec<String>,
}

/// User's decision in response to an ExecApprovalRequest.
#[derive(Debug, Clone, PartialEq, Eq)]
pub enum ReviewDecision {
    /// User has approved this command and the agent should execute it.
    Approved,

    /// User has approved this command and wants to apply the proposed execpolicy
    /// amendment so future matching commands are permitted.
    ApprovedExecpolicyAmendment {
        proposed_execpolicy_amendment: ExecPolicyAmendment,
    },

    /// User has approved this command and wants to automatically approve any
    /// future identical instances (`command` and `cwd` match exactly) for the
    /// remainder of the session.
    ApprovedForSession,

    /// User has denied this command and the agent should not execute it, but
    /// it should continue the session and try something else.
    Denied,

    /// User has denied this command and the agent should not do anything until
    /// the user's next command.
    Abort,
}

#[derive(Debug, Clone, PartialEq)]
pub enum FileChange {
    Add {
        content: String,
    },
    Delete {
        content: String,
    },
    Update {
        unified_diff: String,
        move_path: Option<PathBuf>,
    },
}

#[derive(Debug, Clone)]
pub struct TurnAbortedEvent {
    pub turn_id: Option<String>,
    pub reason: TurnAbortReason,
}

#[derive(Debug, Clone, PartialEq)]
pub enum TurnAbortReason {
    Interrupted,
    Replaced,
    ReviewEnded,
}

/// Agent lifecycle status, derived from emitted events.
#[derive(Debug, Clone, PartialEq, Eq)]
pub enum AgentStatus {
    /// Agent is waiting for initialization.
    PendingInit,
    /// Agent is currently running.
    Running,
    /// Agent's current turn was interrupted and it may receive more input.
    Interrupted,
    /// Agent is done. Contains the final assistant message.
    Completed(Option<String>),
    /// Agent encountered an error.
    Errored(String),
    /// Agent has been shutdown.
    Shutdown,
    /// Agent is not found.
    NotFound,
}

#[derive(Debug, Clone, PartialEq)]
pub struct CollabAgentSpawnBeginEvent {
    /// Identifier for the collab tool call.
    pub call_id: String,
    /// Thread ID of the sender.
    pub sender_thread_id: ThreadId,
    /// Initial prompt sent to the agent. Can be empty to prevent CoT leaking at the beginning.
    pub prompt: String,
    /// Model requested for the spawned agent.
    pub model: String,
    /// Reasoning effort requested for the spawned agent.
    pub reasoning_effort: ReasoningEffort,
}

#[derive(Debug, Clone, PartialEq, Eq)]
pub struct CollabAgentRef {
    /// Thread ID of the receiver/new agent.
    pub thread_id: ThreadId,
    /// Optional nickname assigned to an AgentControl-spawned sub-agent.
    pub agent_nickname: Option<String>,
    /// Optional role (agent_role) assigned to an AgentControl-spawned sub-agent.
    pub agent_role: Option<String>,
}

#[derive(Debug, Clone, PartialEq, Eq)]
pub struct CollabAgentStatusEntry {
    /// Thread ID of the receiver/new agent.
    pub thread_id: ThreadId,
    /// Optional nickname assigned to an AgentControl-spawned sub-agent.
    pub agent_nickname: Option<String>,
    /// Optional role (agent_role) assigned to an AgentControl-spawned sub-agent.
    pub agent_role: Option<String>,
    /// Last known status of the agent.
    pub status: AgentStatus,
}

#[derive(Debug, Clone, PartialEq)]
pub struct CollabAgentSpawnEndEvent {
    /// Identifier for the collab tool call.
    pub call_id: String,
    /// Thread ID of the sender.
    pub sender_thread_id: ThreadId,
    /// Thread ID of the newly spawned agent, if it was created.
    pub new_thread_id: Option<ThreadId>,
    /// Optional nickname assigned to the new agent.
    pub new_agent_nickname: Option<String>,
    /// Optional role assigned to the new agent.
    pub new_agent_role: Option<String>,
    /// Initial prompt sent to the agent. Can be empty to prevent CoT leaking at the beginning.
    pub prompt: String,
    /// Model requested for the spawned agent.
    pub model: String,
    /// Reasoning effort requested for the spawned agent.
    pub reasoning_effort: ReasoningEffort,
    /// Last known status of the new agent reported to the sender agent.
    pub status: AgentStatus,
}

#[derive(Debug, Clone, PartialEq)]
pub struct CollabAgentInteractionBeginEvent {
    /// Identifier for the collab tool call.
    pub call_id: String,
    /// Thread ID of the sender.
    pub sender_thread_id: ThreadId,
    /// Thread ID of the receiver.
    pub receiver_thread_id: ThreadId,
    /// Prompt sent from the sender to the receiver.
    pub prompt: String,
}

#[derive(Debug, Clone, PartialEq)]
pub struct CollabAgentInteractionEndEvent {
    /// Identifier for the collab tool call.
    pub call_id: String,
    /// Thread ID of the sender.
    pub sender_thread_id: ThreadId,
    /// Thread ID of the receiver.
    pub receiver_thread_id: ThreadId,
    /// Optional nickname assigned to the receiver agent.
    pub receiver_agent_nickname: Option<String>,
    /// Optional role assigned to the receiver agent.
    pub receiver_agent_role: Option<String>,
    /// Prompt sent from the sender to the receiver.
    pub prompt: String,
    /// Last known status of the receiver agent reported to the sender agent.
    pub status: AgentStatus,
}

#[derive(Debug, Clone, PartialEq)]
pub struct CollabWaitingBeginEvent {
    /// Thread ID of the sender.
    pub sender_thread_id: ThreadId,
    /// Thread ID of the receivers.
    pub receiver_thread_ids: Vec<ThreadId>,
    /// Optional nicknames/roles for receivers.
    pub receiver_agents: Vec<CollabAgentRef>,
    /// ID of the waiting call.
    pub call_id: String,
}

#[derive(Debug, Clone, PartialEq)]
pub struct CollabWaitingEndEvent {
    /// Thread ID of the sender.
    pub sender_thread_id: ThreadId,
    /// ID of the waiting call.
    pub call_id: String,
    /// Optional receiver metadata paired with final statuses.
    pub agent_statuses: Vec<CollabAgentStatusEntry>,
    /// Last known status of the receiver agents reported to the sender agent.
    pub statuses: HashMap<ThreadId, AgentStatus>,
}

#[derive(Debug, Clone, PartialEq)]
pub struct CollabCloseBeginEvent {
    /// Identifier for the collab tool call.
    pub call_id: String,
    /// Thread ID of the sender.
    pub sender_thread_id: ThreadId,
    /// Thread ID of the receiver.
    pub receiver_thread_id: ThreadId,
}

#[derive(Debug, Clone, PartialEq)]
pub struct CollabCloseEndEvent {
    /// Identifier for the collab tool call.
    pub call_id: String,
    /// Thread ID of the sender.
    pub sender_thread_id: ThreadId,
    /// Thread ID of the receiver.
    pub receiver_thread_id: ThreadId,
    /// Optional nickname assigned to the receiver agent.
    pub receiver_agent_nickname: Option<String>,
    /// Optional role assigned to the receiver agent.
    pub receiver_agent_role: Option<String>,
    /// Last known status of the receiver agent reported to the sender agent before the close.
    pub status: AgentStatus,
}

#[derive(Debug, Clone, PartialEq)]
pub struct CollabResumeBeginEvent {
    /// Identifier for the collab tool call.
    pub call_id: String,
    /// Thread ID of the sender.
    pub sender_thread_id: ThreadId,
    /// Thread ID of the receiver.
    pub receiver_thread_id: ThreadId,
    /// Optional nickname assigned to the receiver agent.
    pub receiver_agent_nickname: Option<String>,
    /// Optional role assigned to the receiver agent.
    pub receiver_agent_role: Option<String>,
}

#[derive(Debug, Clone, PartialEq)]
pub struct CollabResumeEndEvent {
    /// Identifier for the collab tool call.
    pub call_id: String,
    /// Thread ID of the sender.
    pub sender_thread_id: ThreadId,
    /// Thread ID of the receiver.
    pub receiver_thread_id: ThreadId,
    /// Optional nickname assigned to the receiver agent.
    pub receiver_agent_nickname: Option<String>,
    /// Optional role assigned to the receiver agent.
    pub receiver_agent_role: Option<String>,
    /// Last known status of the receiver agent reported to the sender agent after resume.
    pub status: AgentStatus,
}

impl EventMsg {
    /// The name of the event.
    pub open spec fn name(self) -> Seq<char> {
        match self {
            EventMsg::Error(..) => "error"@,
            EventMsg::Warning(..) => "warning"@,
            EventMsg::StreamError(..) => "stream_error"@,
            EventMsg::ContextCompacted(..) => "context_compacted"@,
            EventMsg::ThreadRolledBack(..) => "thread_rolled_back"@,
            EventMsg::TurnStarted(..) => "turn_started"@,
            EventMsg::TurnComplete(..) => "turn_complete"@,
            EventMsg::TurnAborted(..) => "turn_aborted"@,
            EventMsg::TokenCount(..) => "token_count"@,
            EventMsg::AgentMessage(..) => "agent_message"@,
            EventMsg::AgentMessageDelta(..) => "agent_message_delta"@,
            EventMsg::PlanDelta(..) => "plan_delta"@,
            EventMsg::AgentReasoning(..) => "agent_reasoning"@,
            EventMsg::AgentReasoningDelta(..) => "agent_reasoning_delta"@,
            EventMsg::AgentReasoningRawContent(..) => "agent_reasoning_raw_content"@,
            EventMsg::AgentReasoningRawContentDelta(..) => "agent_reasoning_raw_content_delta"@,
            EventMsg::AgentReasoningSectionBreak(..) => "agent_reasoning_section_break"@,
            EventMsg::SessionConfigured(..) => "session_configured"@,
            EventMsg::PotterProjectStarted { .. } => "potter_project_started"@,
            EventMsg::PotterRoundStarted { .. } => "potter_round_started"@,
            EventMsg::PotterRoundFinished { .. } => "potter_round_finished"@,
            EventMsg::PotterStreamRecoveryUpdate { .. } => "potter_stream_recovery_update"@,
            EventMsg::PotterStreamRecoveryRecovered => "potter_stream_recovery_recovered"@,
            EventMsg::PotterStreamRecoveryGaveUp { .. } => "potter_stream_recovery_gave_up"@,
            EventMsg::PotterProjectSucceeded { .. } => "potter_project_succeeded"@,
            EventMsg::PotterProjectBudgetExhausted { .. } => "potter_project_budget_exhausted"@,
            EventMsg::PotterProjectCompleted { .. } => "potter_project_completed"@,
            EventMsg::PotterProjectInterrupted { .. } => "potter_project_interrupted"@,
            EventMsg::WebSearchEnd(..) => "web_search_end"@,
            EventMsg::ExecCommandBegin(..) => "exec_command_begin"@,
            EventMsg::TerminalInteraction(..) => "terminal_interaction"@,
            EventMsg::ExecCommandEnd(..) => "exec_command_end"@,
            EventMsg::ViewImageToolCall(..) => "view_image_tool_call"@,
            EventMsg::ExecApprovalRequest(..) => "exec_approval_request"@,
            EventMsg::RequestPermissions(..) => "request_permissions"@,
            EventMsg::RequestUserInput(..) => "request_user_input"@,
            EventMsg::ElicitationRequest(..) => "elicitation_request"@,
            EventMsg::ApplyPatchApprovalRequest(..) => "apply_patch_approval_request"@,
            EventMsg::GuardianAssessment(..) => "guardian_assessment"@,
            EventMsg::DeprecationNotice(..) => "deprecation_notice"@,
            EventMsg::BackgroundEvent(..) => "background_event"@,
            EventMsg::PatchApplyBegin(..) => "patch_apply_begin"@,
            EventMsg::PatchApplyEnd(..) => "patch_apply_end"@,
            EventMsg::HookStarted(..) => "hook_started"@,
            EventMsg::HookCompleted(..) => "hook_completed"@,
            EventMsg::PlanUpdate(..) => "plan_update"@,
            EventMsg::CollabAgentSpawnBegin(..) => "collab_agent_spawn_begin"@,
            EventMsg::CollabAgentSpawnEnd(..) => "collab_agent_spawn_end"@,
            EventMsg::CollabAgentInteractionBegin(..) => "collab_agent_interaction_begin"@,
            EventMsg::CollabAgentInteractionEnd(..) => "collab_agent_interaction_end"@,
            EventMsg::CollabWaitingBegin(..) => "collab_waiting_begin"@,
            EventMsg::CollabWaitingEnd(..) => "collab_waiting_end"@,
            EventMsg::CollabCloseBegin(..) => "collab_close_begin"@,
            EventMsg::CollabCloseEnd(..) => "collab_close_end"@,
            EventMsg::CollabResumeBegin(..) => "collab_resume_begin"@,
            EventMsg::CollabResumeEnd(..) => "collab_resume_end"@,
            EventMsg::ShutdownComplete => "shutdown_complete"@,
            EventMsg::Unknown => "unknown"@,
        }
    }

    /// The name of the event.
    pub fn label(&self) -> (r: &'static str)
        ensures
            r@ == self.name(),
    {
        match self {
            EventMsg::Error(..) => "error",
            EventMsg::Warning(..) => "warning",
            EventMsg::StreamError(..) => "stream_error",
            EventMsg::ContextCompacted(..) => "context_compacted",
            EventMsg::ThreadRolledBack(..) => "thread_rolled_back",
            EventMsg::TurnStarted(..) => "turn_started",
            EventMsg::TurnComplete(..) => "turn_complete",
            EventMsg::TurnAborted(..) => "turn_aborted",
            EventMsg::TokenCount(..) => "token_count",
            EventMsg::AgentMessage(..) => "agent_message",
            EventMsg::AgentMessageDelta(..) => "agent_message_delta",
            EventMsg::PlanDelta(..) => "plan_delta",
            EventMsg::AgentReasoning(..) => "agent_reasoning",
            EventMsg::AgentReasoningDelta(..) => "agent_reasoning_delta",
            EventMsg::AgentReasoningRawContent(..) => "agent_reasoning_raw_content",
            EventMsg::AgentReasoningRawContentDelta(..) => "agent_reasoning_raw_content_delta",
            EventMsg::AgentReasoningSectionBreak(..) => "agent_reasoning_section_break",
            EventMsg::SessionConfigured(..) => "session_configured",
            EventMsg::PotterProjectStarted { .. } => "potter_project_started",
            EventMsg::PotterRoundStarted { .. } => "potter_round_started",
            EventMsg::PotterRoundFinished { .. } => "potter_round_finished",
            EventMsg::PotterStreamRecoveryUpdate { .. } => "potter_stream_recovery_update",
            EventMsg::PotterStreamRecoveryRecovered => "potter_stream_recovery_recovered",
            EventMsg::PotterStreamRecoveryGaveUp { .. } => "potter_stream_recovery_gave_up",
            EventMsg::PotterProjectSucceeded { .. } => "potter_project_succeeded",
            EventMsg::PotterProjectBudgetExhausted { .. } => "potter_project_budget_exhausted",
            EventMsg::PotterProjectCompleted { .. } => "potter_project_completed",
            EventMsg::PotterProjectInterrupted { .. } => "potter_project_interrupted",
            EventMsg::WebSearchEnd(..) => "web_search_end",
            EventMsg::ExecCommandBegin(..) => "exec_command_begin",
            EventMsg::TerminalInteraction(..) => "terminal_interaction",
            EventMsg::ExecCommandEnd(..) => "exec_command_end",
            EventMsg::ViewImageToolCall(..) => "view_image_tool_call",
            EventMsg::ExecApprovalRequest(..) => "exec_approval_request",
            EventMsg::RequestPermissions(..) => "request_permissions",
            EventMsg::RequestUserInput(..) => "request_user_input",
            EventMsg::ElicitationRequest(..) => "elicitation_request",
            EventMsg::ApplyPatchApprovalRequest(..) => "apply_patch_approval_request",
            EventMsg::GuardianAssessment(..) => "guardian_assessment",
            EventMsg::DeprecationNotice(..) => "deprecation_notice",
            EventMsg::BackgroundEvent(..) => "background_event",
            EventMsg::PatchApplyBegin(..) => "patch_apply_begin",
            EventMsg::PatchApplyEnd(..) => "patch_apply_end",
            EventMsg::HookStarted(..) => "hook_started",
            EventMsg::HookCompleted(..) => "hook_completed",
            EventMsg::PlanUpdate(..) => "plan_update",
            EventMsg::CollabAgentSpawnBegin(..) => "collab_agent_spawn_begin",
            EventMsg::CollabAgentSpawnEnd(..) => "collab_agent_spawn_end",
            EventMsg::CollabAgentInteractionBegin(..) => "collab_agent_interaction_begin",
            EventMsg::CollabAgentInteractionEnd(..) => "collab_agent_interaction_end",
            EventMsg::CollabWaitingBegin(..) => "collab_waiting_begin",
            EventMsg::CollabWaitingEnd(..) => "collab_waiting_end",
            EventMsg::CollabCloseBegin(..) => "collab_close_begin",
            EventMsg::CollabCloseEnd(..) => "collab_close_end",
            EventMsg::CollabResumeBegin(..) => "collab_resume_begin",
            EventMsg::CollabResumeEnd(..) => "collab_resume_end",
            EventMsg::ShutdownComplete => "shutdown_complete",
            EventMsg::Unknown => "unknown",
        }
    }
}

impl ServiceTier {
    /// The name of the tier.
    pub fn label(self) -> (r: &'static str)
        ensures
            r@ == (match self {
                ServiceTier::Fast => "fast"@,
                ServiceTier::Flex => "flex"@,
            }),
    {
        match self {
            ServiceTier::Fast => "fast",
            ServiceTier::Flex => "flex",
        }
    }
}

impl ExecCommandSource {
    /// The name of the source.
    pub fn label(self) -> (r: &'static str)
        ensures
            r@ == (match self {
                ExecCommandSource::Agent => "Agent"@,
                ExecCommandSource::UserShell => "UserShell"@,
                ExecCommandSource::UnifiedExecStartup => "UnifiedExecStartup"@,
                ExecCommandSource::UnifiedExecInteraction => "UnifiedExecInteraction"@,
            }),
    {
        match self {
            ExecCommandSource::Agent => "Agent",
            ExecCommandSource::UserShell => "UserShell",
            ExecCommandSource::UnifiedExecStartup => "UnifiedExecStartup",
            ExecCommandSource::UnifiedExecInteraction => "UnifiedExecInteraction",
        }
    }
}

impl ReviewDecision {
    /// The name of the decision.
    pub fn label(&self) -> (r: &'static str)
        ensures
            r@ == (match *self {
                ReviewDecision::Approved => "Approved"@,
                ReviewDecision::ApprovedExecpolicyAmendment { .. } => {
                    "ApprovedExecpolicyAmendment"@
                },
                ReviewDecision::ApprovedForSession => "ApprovedForSession"@,
                ReviewDecision::Denied => "Denied"@,
                ReviewDecision::Abort => "Abort"@,
            }),
    {
        match self {
            ReviewDecision::Approved => "Approved",
            ReviewDecision::ApprovedExecpolicyAmendment { .. } => "ApprovedExecpolicyAmendment",
            ReviewDecision::ApprovedForSession => "ApprovedForSession",
            ReviewDecision::Denied => "Denied",
            ReviewDecision::Abort => "Abort",
        }
    }
}

impl Default for PlanType {
    fn default() -> (r: Self)
        ensures
            r == PlanType::Free,
    {
        PlanType::Free
    }
}

impl Default for ExecCommandSource {
    fn default() -> (r: Self)
        ensures
            r == ExecCommandSource::Agent,
    {
        ExecCommandSource::Agent
    }
}

impl Default for ReviewDecision {
    fn default() -> (r: Self)
        ensures
            r == ReviewDecision::Denied,
    {
        ReviewDecision::Denied
    }
}

impl Default for AgentStatus {
    fn default() -> (r: Self)
        ensures
            r == AgentStatus::PendingInit,
    {
        AgentStatus::PendingInit
    }
}

/// The name of an event is its kind, in words.
pub proof fn law_event_is_named_by_its_kind(msg: EventMsg)
    ensures
        msg is Error ==> msg.name() == "error"@,
        msg is Warning ==> msg.name() == "warning"@,
        msg is StreamError ==> msg.name() == "stream_error"@,
        msg is ContextCompacted ==> msg.name() == "context_compacted"@,
        msg is ThreadRolledBack ==> msg.name() == "thread_rolled_back"@,
        msg is TurnStarted ==> msg.name() == "turn_started"@,
        msg is TurnComplete ==> msg.name() == "turn_complete"@,
        msg is TurnAborted ==> msg.name() == "turn_aborted"@,
        msg is TokenCount ==> msg.name() == "token_count"@,
        msg is AgentMessage ==> msg.name() == "agent_message"@,
        msg is AgentMessageDelta ==> msg.name() == "agent_message_delta"@,
        msg is PlanDelta ==> msg.name() == "plan_delta"@,
        msg is AgentReasoning ==> msg.name() == "agent_reasoning"@,
        msg is AgentReasoningDelta ==> msg.name() == "agent_reasoning_delta"@,
        msg is AgentReasoningRawContent ==> msg.name() == "agent_reasoning_raw_content"@,
        msg is AgentReasoningRawContentDelta ==> msg.name() == "agent_reasoning_raw_content_delta"@,
        msg is AgentReasoningSectionBreak ==> msg.name() == "agent_reasoning_section_break"@,
        msg is SessionConfigured ==> msg.name() == "session_configured"@,
        msg is PotterProjectStarted ==> msg.name() == "potter_project_started"@,
        msg is PotterRoundStarted ==> msg.name() == "potter_round_started"@,
        msg is PotterRoundFinished ==> msg.name() == "potter_round_finished"@,
        msg is PotterStreamRecoveryUpdate ==> msg.name() == "potter_stream_recovery_update"@,
        msg is PotterStreamRecoveryRecovered ==> msg.name() == "potter_stream_recovery_recovered"@,
        msg is PotterStreamRecoveryGaveUp ==> msg.name() == "potter_stream_recovery_gave_up"@,
        msg is PotterProjectSucceeded ==> msg.name() == "potter_project_succeeded"@,
        msg is PotterProjectBudgetExhausted ==> msg.name() == "potter_project_budget_exhausted"@,
        msg is PotterProjectCompleted ==> msg.name() == "potter_project_completed"@,
        msg is PotterProjectInterrupted ==> msg.name() == "potter_project_interrupted"@,
        msg is WebSearchEnd ==> msg.name() == "web_search_end"@,
        msg is ExecCommandBegin ==> msg.name() == "exec_command_begin"@,
        msg is TerminalInteraction ==> msg.name() == "terminal_interaction"@,
        msg is ExecCommandEnd ==> msg.name() == "exec_command_end"@,
        msg is ViewImageToolCall ==> msg.name() == "view_image_tool_call"@,
        msg is ExecApprovalRequest ==> msg.name() == "exec_approval_request"@,
        msg is RequestPermissions ==> msg.name() == "request_permissions"@,
        msg is RequestUserInput ==> msg.name() == "request_user_input"@,
        msg is ElicitationRequest ==> msg.name() == "elicitation_request"@,
        msg is ApplyPatchApprovalRequest ==> msg.name() == "apply_patch_approval_request"@,
        msg is GuardianAssessment ==> msg.name() == "guardian_assessment"@,
        msg is DeprecationNotice ==> msg.name() == "deprecation_notice"@,
        msg is BackgroundEvent ==> msg.name() == "background_event"@,
        msg is PatchApplyBegin ==> msg.name() == "patch_apply_begin"@,
        msg is PatchApplyEnd ==> msg.name() == "patch_apply_end"@,
        msg is HookStarted ==> msg.name() == "hook_started"@,
        msg is HookCompleted ==> msg.name() == "hook_completed"@,
        msg is PlanUpdate ==> msg.name() == "plan_update"@,
        msg is CollabAgentSpawnBegin ==> msg.name() == "collab_agent_spawn_begin"@,
        msg is CollabAgentSpawnEnd ==> msg.name() == "collab_agent_spawn_end"@,
        msg is CollabAgentInteractionBegin ==> msg.name() == "collab_agent_interaction_begin"@,
        msg is CollabAgentInteractionEnd ==> msg.name() == "collab_agent_interaction_end"@,
        msg is CollabWaitingBegin ==> msg.name() == "collab_waiting_begin"@,
        msg is CollabWaitingEnd ==> msg.name() == "collab_waiting_end"@,
        msg is CollabCloseBegin ==> msg.name() == "collab_close_begin"@,
        msg is CollabCloseEnd ==> msg.name() == "collab_close_end"@,
        msg is CollabResumeBegin ==> msg.name() == "collab_resume_begin"@,
        msg is CollabResumeEnd ==> msg.name() == "collab_resume_end"@,
        msg is ShutdownComplete ==> msg.name() == "shutdown_complete"@,
        msg is Unknown ==> msg.name() == "unknown"@,
{
}

/// A number equals itself, unless it is none; equality goes both ways and is passed on; the two
/// zeros are equal, and other numbers are equal only if all their bits are.
pub proof fn law_same_number(a: u64, b: u64, c: u64)
    ensures
        same_number(a, b) == same_number(b, a),
        same_number(a, b) && same_number(b, c) ==> same_number(a, c),
        same_number(0, 0x8000_0000_0000_0000),
        same_number(a, b) && a != b ==> (a == 0 || a == 0x8000_0000_0000_0000) && (b == 0 || b
            == 0x8000_0000_0000_0000),
        same_number(a, a) <==> a % 0x8000_0000_0000_0000 <= 0x7ff0_0000_0000_0000,
{
}

} // verus!
