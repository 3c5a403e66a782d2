//! What happens before a project runs: finding the backend, offering to set things up, updating.

use vstd::prelude::*;

use crate::notes;
use crate::text;

verus! {

/// Why the backend cannot be launched.
#[derive(Debug, Clone, PartialEq, Eq)]
pub enum CodexBinError {
    /// No directory of the `PATH` holds the command.
    NotFoundInPath { command: String },
}

/// What the error is called.
pub open spec fn codex_bin_message(command: Seq<char>) -> Seq<char> {
    "Failed to find `"@ + command + "` binary in PATH"@
}

impl CodexBinError {
    /// What the error is called.
    pub fn message(&self) -> (r: String)
        ensures
            r@ == (match *self {
                CodexBinError::NotFoundInPath { command } => codex_bin_message(command@),
            }),
    {
        match self {
            CodexBinError::NotFoundInPath { command } => {
                let mut out = "Failed to find `".to_owned();
                out.append(command.as_str());
                out.append("` binary in PATH");
                out
            },
        }
    }

    /// The error as a line for a terminal with colours.
    pub fn render_ansi(&self) -> (r: String)
        ensures
            r@ == (match *self {
                CodexBinError::NotFoundInPath { command } => notes::styled(
                    notes::ANSI_BOLD@,
                    codex_bin_message(command@),
                    true,
                ).push('\n'),
            }),
    {
        let message = self.message();
        let mut out = notes::ansi_bold(message.as_str(), true);
        out.push('\n');
        out
    }
}

/// The error as a line.
pub fn render_startup_error(err: &CodexBinError, color_enabled: bool) -> (r: String)
    ensures
        r@ == (match *err {
            CodexBinError::NotFoundInPath { command } => notes::styled(
                notes::ANSI_BOLD@,
                codex_bin_message(command@),
                color_enabled,
            ).push('\n'),
        }),
{
    if color_enabled {
        err.render_ansi()
    } else {
        let mut out = err.message();
        out.push('\n');
        out
    }
}

/// A warning, as a line.
pub open spec fn warning(what: Seq<char>, error: Seq<char>) -> Seq<char> {
    "warning: "@ + what + ": "@ + error
}

/// [`warning`] as a string.
pub(crate) fn warn(what: &str, error: &str) -> (r: String)
    ensures
        r@ == warning(what@, error@),
{
    let mut out = "warning: ".to_owned();
    out.append(what);
    out.append(": ");
    out.append(error);
    out
}

/// What to do about the global gitignore.
#[derive(Debug, Clone)]
pub enum GitignoreStep {
    /// Nothing.
    Nothing,
    /// Print a warning, and nothing more.
    Warn { line: String },
    /// Add the entry.
    Ensure,
    /// Look whether the entry is there.
    Detect,
    /// Ask the user.
    Ask,
    /// Remember not to ask again.
    PersistHide,
    /// Print a warning, and clear the screen.
    WarnAndClear { line: String },
}

/// What to do about a global gitignore in a run without anybody at the terminal, once it is known
/// whether the entry is there: it is added where it is missing.
pub fn maybe_apply_default_global_gitignore(has_entry: &Result<bool, String>) -> (r: GitignoreStep)
    ensures
        match *has_entry {
            Err(error) => r matches GitignoreStep::Warn { line } && line@ == warning(
                "failed to resolve global gitignore"@,
                error@,
            ),
            Ok(true) => r is Nothing,
            Ok(false) => r is Ensure,
        },
{
    match has_entry {
        Err(error) => GitignoreStep::Warn {
            line: warn("failed to resolve global gitignore", error.as_str()),
        },
        Ok(true) => GitignoreStep::Nothing,
        Ok(false) => GitignoreStep::Ensure,
    }
}

/// What is printed once the entry was added, or could not be.
pub open spec fn gitignore_notice(
    result: Result<(), Seq<char>>,
    entry: Seq<char>,
    path: Seq<char>,
    color_enabled: bool,
) -> Seq<char> {
    match result {
        Ok(_) => notes::styled(notes::ANSI_BOLD@, "Notice:"@, color_enabled) + " added "@
            + notes::styled(notes::ANSI_CYAN@, entry, color_enabled) + " to global gitignore "@
            + notes::styled(notes::ANSI_CYAN@, path, color_enabled),
        Err(error) => warning("failed to update global gitignore "@ + path, error),
    }
}

/// The line that is printed once the entry was added, or could not be.
pub fn render_gitignore_notice(
    result: &Result<(), String>,
    entry: &str,
    path: &str,
    color_enabled: bool,
) -> (r: String)
    ensures
        r@ == gitignore_notice(
            match *result {
                Ok(_) => Ok(()),
                Err(e) => Err(e@),
            },
            entry@,
            path@,
            color_enabled,
        ),
{
    match result {
        Ok(_) => {
            let mut out = notes::ansi_bold("Notice:", color_enabled);
            let shown_entry = notes::ansi_cyan(entry, color_enabled);
            let shown_path = notes::ansi_cyan(path, color_enabled);
            out.append(" added ");
            out.append(shown_entry.as_str());
            out.append(" to global gitignore ");
            out.append(shown_path.as_str());
            out
        },
        Err(error) => {
            let mut what = "failed to update global gitignore ".to_owned();
            what.append(path);
            warn(what.as_str(), error.as_str())
        },
    }
}

/// Whether to ask the user about the global gitignore, as far as the configuration decides: it may
/// say whether to keep from asking. [`GitignoreStep::Detect`] where it does not decide.
pub fn prepare_global_gitignore_prompt(hide_prompt: &Result<Option<bool>, String>) -> (r:
    GitignoreStep)
    ensures
        match *hide_prompt {
            Err(error) => r matches GitignoreStep::Warn { line } && line@ == warning(
                "failed to locate codexpotter config"@,
                error@,
            ),
            Ok(Some(true)) => r is Nothing,
            Ok(_) => r is Detect,
        },
{
    match hide_prompt {
        Err(error) => GitignoreStep::Warn {
            line: warn("failed to locate codexpotter config", error.as_str()),
        },
        Ok(Some(true)) => GitignoreStep::Nothing,
        Ok(_) => GitignoreStep::Detect,
    }
}

/// Whether to ask the user about the global gitignore, where the configuration does not decide:
/// only where the entry is missing.
pub fn plan_global_gitignore_prompt(has_entry: &Result<bool, String>) -> (r: GitignoreStep)
    ensures
        match *has_entry {
            Err(error) => r matches GitignoreStep::Warn { line } && line@ == warning(
                "failed to resolve global gitignore"@,
                error@,
            ),
            Ok(true) => r is Nothing,
            Ok(false) => r is Ask,
        },
{
    match has_entry {
        Err(error) => GitignoreStep::Warn {
            line: warn("failed to resolve global gitignore", error.as_str()),
        },
        Ok(true) => GitignoreStep::Nothing,
        Ok(false) => GitignoreStep::Ask,
    }
}

/// What the user answered.
#[derive(Debug, Clone, Copy, PartialEq, Eq, Structural)]
pub enum GlobalGitignorePromptOutcome {
    AddToGlobalGitignore,
    No,
    NoDontAskAgain,
}

/// What to do about the user's answer.
pub fn maybe_prompt_global_gitignore(
    outcome: &Result<GlobalGitignorePromptOutcome, String>,
) -> (r: GitignoreStep)
    ensures
        match *outcome {
            Ok(GlobalGitignorePromptOutcome::AddToGlobalGitignore) => r is Ensure,
            Ok(GlobalGitignorePromptOutcome::No) => r is Nothing,
            Ok(GlobalGitignorePromptOutcome::NoDontAskAgain) => r is PersistHide,
            Err(error) => r matches GitignoreStep::WarnAndClear { line } && line@ == warning(
                "global gitignore prompt failed"@,
                error@,
            ),
        },
{
    match outcome {
        Ok(GlobalGitignorePromptOutcome::AddToGlobalGitignore) => GitignoreStep::Ensure,
        Ok(GlobalGitignorePromptOutcome::No) => GitignoreStep::Nothing,
        Ok(GlobalGitignorePromptOutcome::NoDontAskAgain) => GitignoreStep::PersistHide,
        Err(error) => GitignoreStep::WarnAndClear {
            line: warn("global gitignore prompt failed", error.as_str()),
        },
    }
}

/// The number of a setup step, out of all.
#[derive(Debug, Clone, Copy, PartialEq, Eq, Structural)]
pub struct StartupSetupStep {
    pub index: usize,
    pub total: usize,
}

/// The numbers of the setup steps: of the question about the gitignore, and of that about the
/// verbosity. A step is numbered only where it is asked and is not the only one.
pub fn setup_steps(asks_gitignore: bool, asks_verbosity: bool) -> (r: (
    Option<StartupSetupStep>,
    Option<StartupSetupStep>,
))
    ensures
        asks_gitignore && asks_verbosity ==> r == (
            Some(StartupSetupStep { index: 1, total: 2 }),
            Some(StartupSetupStep { index: 2, total: 2 }),
        ),
        !(asks_gitignore && asks_verbosity) ==> r.0 is None && r.1 is None,
{
    if asks_gitignore && asks_verbosity {
        (
            Some(StartupSetupStep { index: 1, total: 2 }),
            Some(StartupSetupStep { index: 2, total: 2 }),
        )
    } else {
        (None, None)
    }
}

/// The line that announces an update.
pub open spec fn announcement(command: Seq<char>) -> Seq<char> {
    "Updating CodexPotter via `"@ + command + "`..."@
}

/// The line that announces an update.
pub fn update_announcement(command: &str) -> (r: String)
    ensures
        r@ == announcement(command@),
{
    let mut out = "Updating CodexPotter via `".to_owned();
    out.append(command);
    out.append("`...");
    out
}

/// The line that is printed after an update.
pub const UPDATE_SUCCEEDED: &'static str = "Update ran successfully! Please restart CodexPotter.";

/// The error of an update that failed.
pub open spec fn update_failure(command: Seq<char>, status: Seq<char>) -> Seq<char> {
    "`"@ + command + "` failed with status "@ + status
}

/// What came of an update: the line to print, or the error.
pub fn run_update_action(command: &str, success: bool, status: &str) -> (r: Result<
    &'static str,
    String,
>)
    ensures
        match r {
            Ok(line) => success && line@ == UPDATE_SUCCEEDED@,
            Err(e) => !success && e@ == update_failure(command@, status@),
        },
{
    if success {
        Ok(UPDATE_SUCCEEDED)
    } else {
        let mut out = "`".to_owned();
        out.append(command);
        out.append("` failed with status ");
        out.append(status);
        Err(out)
    }
}

/// An error that is printed without colours holds no escape sequence that its command does not
/// hold, and ends its line.
pub proof fn law_plain_error_is_plain(command: Seq<char>)
    ensures
        ({
            let line = notes::styled(
                notes::ANSI_BOLD@,
                codex_bin_message(command),
                false,
            ).push('\n');
            &&& line == codex_bin_message(command).push('\n')
            &&& line.last() == '\n'
        }),
{
}

/// What is said of the backend, of a warning and of an update names what it is about, whole.
pub proof fn law_lines_name_what_they_are_about(
    command: Seq<char>,
    what: Seq<char>,
    error: Seq<char>,
    status: Seq<char>,
)
    ensures
        codex_bin_message(command) == "Failed to find `"@ + command + "` binary in PATH"@,
        warning(what, error) == "warning: "@ + what + ": "@ + error,
        announcement(command) == "Updating CodexPotter via `"@ + command + "`..."@,
        update_failure(command, status) == "`"@ + command + "` failed with status "@ + status,
{
}

/// The entry that was added is named with the file it was added to; where it could not be added,
/// the warning names the file and the reason.
pub proof fn law_gitignore_notice(
    entry: Seq<char>,
    path: Seq<char>,
    error: Seq<char>,
    color_enabled: bool,
)
    ensures
        gitignore_notice(Ok(()), entry, path, false) == "Notice:"@ + " added "@ + entry
            + " to global gitignore "@ + path,
        gitignore_notice(Ok(()), entry, path, true) == notes::ANSI_BOLD@ + "Notice:"@
            + notes::ANSI_RESET@ + " added "@ + (notes::ANSI_CYAN@ + entry + notes::ANSI_RESET@)
            + " to global gitignore "@ + (notes::ANSI_CYAN@ + path + notes::ANSI_RESET@),
        gitignore_notice(Err(error), entry, path, color_enabled) == "warning: "@ + (
        "failed to update global gitignore "@ + path) + ": "@ + error,
{
}

} // verus!
