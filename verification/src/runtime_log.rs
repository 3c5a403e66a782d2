//! The diagnostics log of a project, `potter-runtime.jsonl`.
//!
//! The log is appended to, one JSON object a line: sessions that started, rounds that started, and
//! why a run stopped abnormally. It is for diagnosis only.

use vstd::prelude::*;

use crate::text;

verus! {

/// The name of the log, in the directory of its project.
pub const POTTER_RUNTIME_LOG_FILENAME: &'static str = "potter-runtime.jsonl";

/// Why a run stopped abnormally.
#[derive(Debug, Clone, Copy, PartialEq, Eq, Structural)]
pub enum PotterRuntimeDiagnosticReason {
    ManualInterrupt,
    EventStreamClosed,
    BackendSpawnFailed,
    RuntimeError,
}

/// A line of the log.
#[derive(Debug, Clone, PartialEq, Eq)]
pub enum PotterRuntimeLogLine {
    SessionStarted { unix_secs: u64, mode: String },
    RoundStarted { unix_secs: u64, current: u32, total: u32 },
    Diagnostic {
        unix_secs: u64,
        reason: PotterRuntimeDiagnosticReason,
        round_current: Option<u32>,
        round_total: Option<u32>,
        message: String,
    },
}

/// The path of the log, component by component, from that of its project.
pub fn potter_runtime_log_path(project_dir: &Vec<String>) -> (r: Vec<String>)
    ensures
        text::texts(r@) == text::texts(project_dir@).push(POTTER_RUNTIME_LOG_FILENAME@),
{
    let ghost all = text::texts(project_dir@);
    let mut r: Vec<String> = Vec::new();
    let mut i: usize = 0;
    assert(text::texts(r@) =~= all.take(0));
    while i < project_dir.len()
        invariant
            i <= project_dir.len(),
            all == text::texts(project_dir@),
            text::texts(r@) == all.take(i as int),
        decreases project_dir.len() - i,
    {
        text::push_text(&mut r, project_dir[i].as_str());
        assert(text::texts(r@) =~= all.take(i + 1));
        i = i + 1;
    }
    assert(all.take(all.len() as int) =~= all);
    text::push_text(&mut r, POTTER_RUNTIME_LOG_FILENAME);
    r
}

/// The time of a line, from the seconds since 1970 that the clock shows: zero where it shows a time
/// before that.
pub fn now_unix_secs(since_epoch: Option<u64>) -> (r: u64)
    ensures
        r == (match since_epoch {
            Some(secs) => secs,
            None => 0,
        }),
{
    match since_epoch {
        Some(secs) => secs,
        None => 0,
    }
}

/// The line for a session that started.
pub fn append_session_started(unix_secs: u64, mode: String) -> (r: PotterRuntimeLogLine)
    ensures
        r == (PotterRuntimeLogLine::SessionStarted { unix_secs, mode }),
{
    PotterRuntimeLogLine::SessionStarted { unix_secs, mode }
}

/// The line for a round that started.
pub fn append_round_started(unix_secs: u64, current: u32, total: u32) -> (r: PotterRuntimeLogLine)
    ensures
        r == (PotterRuntimeLogLine::RoundStarted { unix_secs, current, total }),
{
    PotterRuntimeLogLine::RoundStarted { unix_secs, current, total }
}

/// The line for a run that stopped abnormally.
pub fn append_diagnostic(
    unix_secs: u64,
    reason: PotterRuntimeDiagnosticReason,
    round_current: Option<u32>,
    round_total: Option<u32>,
    message: String,
) -> (r: PotterRuntimeLogLine)
    ensures
        r == (PotterRuntimeLogLine::Diagnostic {
            unix_secs,
            reason,
            round_current,
            round_total,
            message,
        }),
{
    PotterRuntimeLogLine::Diagnostic { unix_secs, reason, round_current, round_total, message }
}

/// What is to be done to append a line to a log.
#[derive(Debug, PartialEq, Eq)]
pub struct LogAppend {
    /// The directory that must be there first.
    pub create_dir: String,
    /// What is written at the end of the log.
    pub text: String,
}

/// How to append a line to the log at `path`, whose directory is `parent`: the directory is
/// created, and the JSON object is written with a newline after it. A path without a directory is
/// refused.
pub fn append_line(path: &str, parent: Option<&str>, json: String) -> (r: Result<LogAppend, String>)
    ensures
        match r {
            Ok(plan) => parent matches Some(dir) && plan.create_dir@ == dir@ && plan.text@
                == json@.push('\n'),
            Err(e) => parent is None && e@ == "invalid potter-runtime path (no parent): "@ + path@,
        },
{
    match parent {
        None => {
            let mut message = "invalid potter-runtime path (no parent): ".to_owned();
            message.append(path);
            Err(message)
        },
        Some(dir) => {
            let mut line = json;
            line.push('\n');
            Ok(LogAppend { create_dir: dir.to_owned(), text: line })
        },
    }
}

/// A step of appending to the log that can fail.
#[derive(Debug, Clone, Copy, PartialEq, Eq, Structural)]
pub enum AppendStep {
    Create,
    Open,
    Serialize,
    Write,
    Flush,
}

impl AppendStep {
    /// What is said of a step that failed, before the path.
    pub open spec fn prefix(self) -> Seq<char> {
        match self {
            AppendStep::Create => "create "@,
            AppendStep::Open => "open "@,
            AppendStep::Serialize => "serialize potter-runtime line for "@,
            AppendStep::Write => "write "@,
            AppendStep::Flush => "flush "@,
        }
    }

    /// What is said of a step that failed on `path`.
    pub fn context(self, path: &str) -> (r: String)
        ensures
            r@ == self.prefix() + path@,
    {
        let prefix = match self {
            AppendStep::Create => "create ",
            AppendStep::Open => "open ",
            AppendStep::Serialize => "serialize potter-runtime line for ",
            AppendStep::Write => "write ",
            AppendStep::Flush => "flush ",
        };
        let mut out = prefix.to_owned();
        out.append(path);
        out
    }
}

/// Appending to the log leaves its lines alone, and the new line is the last one.
pub proof fn law_log_is_appended_to(log: Seq<char>, json: Seq<char>)
    requires
        log.len() == 0 || log.last() == '\n',
        forall|i: int| 0 <= i < json.len() ==> json[i] != '\n',
        json.len() > 0 ==> json.last() != '\r',
    ensures
        text::lines(log + json.push('\n')) == text::lines(log).push(json),
{
    text::lemma_lines_of_line(json);
    text::lemma_lines_concat(log, json.push('\n'));
    assert(text::lines(log) + seq![json] =~= text::lines(log).push(json));
}

/// What is said of a step that failed.
pub proof fn law_failure_wording()
    ensures
        AppendStep::Create.prefix() == "create "@,
        AppendStep::Open.prefix() == "open "@,
        AppendStep::Serialize.prefix() == "serialize potter-runtime line for "@,
        AppendStep::Write.prefix() == "write "@,
        AppendStep::Flush.prefix() == "flush "@,
{
}

} // verus!
