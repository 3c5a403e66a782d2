//! What the help says of the commands and their arguments.

use vstd::prelude::*;

verus! {

pub const ROOT_ABOUT: &'static str = "Run CodexPotter interactively";

pub const RESUME_ABOUT: &'static str =
    "Resume a CodexPotter project (replay history and optionally continue iterating)";

pub const EXEC_ABOUT: &'static str = "Run CodexPotter non-interactively";

pub const APP_SERVER_ABOUT: &'static str =
    "Run a long-lived JSON-RPC app-server that encapsulates CodexPotter project logic";

pub const APP_SERVER_LONG_ABOUT: &'static str =
    "Run a long-lived JSON-RPC app-server that encapsulates CodexPotter project logic.\n\nThis is primarily intended for internal use.";

pub const CODEX_BIN_HELP: &'static str =
    "Path to the `codex` CLI binary to launch in app-server mode";

pub const ROUNDS_HELP: &'static str =
    "Number of turns to run (each turn starts a fresh `codex app-server`; must be >= 1) [default: 10]";

pub const ROUNDS_LONG_HELP: &'static str =
    "Number of turns to run (each turn starts a fresh `codex app-server`; must be >= 1).\n\nFor `resume`, this controls how many rounds are run when the last recorded round is complete. If the last recorded round is unfinished, the remaining budget is derived from the recorded `round_total` in `potter-rollout.jsonl`.\n\n[default: 10]";

pub const STRICT_ROUNDS_HELP: &'static str =
    "Strictly run exactly this many rounds unless the process is manually interrupted or hits a non-recoverable runtime failure";

pub const STRICT_ROUNDS_LONG_HELP: &'static str =
    "Strictly run exactly this many rounds unless the process is manually interrupted or hits a non-recoverable runtime failure.\n\nWhen set, this overrides `--rounds` and disables CodexPotter's normal early-stop behavior for `finite_incantatem: true` until the final configured round.";

pub const SANDBOX_HELP: &'static str = "Sandbox mode to request from Codex [default: default]";

pub const SANDBOX_LONG_HELP: &'static str =
    "Sandbox mode to request from Codex.\n\n`default` matches codex-cli behavior: no `--sandbox` flag is passed to the app-server and the sandbox policy is left for Codex to decide.\n\n[default: default]";

pub const BYPASS_HELP: &'static str = "Pass Codex's bypass flag when launching `codex app-server`";

pub const BYPASS_LONG_HELP: &'static str =
    "Pass Codex's bypass flag when launching `codex app-server`.\n\nAlias: `--yolo`.";

pub const CONFIG_HELP: &'static str = "Configuration override for Codex";

pub const ENABLE_HELP: &'static str = "Enable a feature of Codex";

pub const DISABLE_HELP: &'static str = "Disable a feature of Codex";

pub const MODEL_HELP: &'static str = "Model that Codex uses";

pub const PROFILE_HELP: &'static str = "Configuration profile of Codex";

pub const SEARCH_HELP: &'static str = "Enable web search in Codex";

pub const XMODEL_HELP: &'static str = "Enable cross-model review mode for this process";

pub const XMODEL_LONG_HELP: &'static str =
    "Enable cross-model review mode for this process.\n\nThis is equivalent to specifying `/potter:xmodel` in the project prompt, but it is intentionally **not** persisted into the project's progress file.";

pub const PROJECT_PATH_HELP: &'static str =
    "Project path to resolve to a unique `MAIN.md`. If omitted, open a picker UI";

pub const PROMPT_HELP: &'static str = "Prompt to run. If omitted, read from stdin";

pub const JSON_HELP: &'static str = "Emit a strict JSONL event stream to stdout";

pub const VERBOSITY_HELP: &'static str =
    "Override transcript verbosity for human-readable stdout rendering";

/// The help of `--codex-bin`, in short, where `env` is what `CODEX_BIN` holds.
pub open spec fn codex_bin_short(env: Seq<char>) -> Seq<char> {
    CODEX_BIN_HELP@ + " [env: CODEX_BIN="@ + env + "] [default: codex]"@
}

/// The help of `--codex-bin` at length, where `env` is what `CODEX_BIN` holds.
pub open spec fn codex_bin_long(env: Seq<char>) -> Seq<char> {
    CODEX_BIN_HELP@ + "\n\n[env: CODEX_BIN="@ + env + "]\n[default: codex]"@
}

/// [`codex_bin_short`] and [`codex_bin_long`].
pub(crate) fn codex_bin_help(env: &str) -> (r: (String, String))
    ensures
        r.0@ == codex_bin_short(env@),
        r.1@ == codex_bin_long(env@),
{
    let mut short = CODEX_BIN_HELP.to_owned();
    short.append(" [env: CODEX_BIN=");
    short.append(env);
    short.append("] [default: codex]");
    let mut long = CODEX_BIN_HELP.to_owned();
    long.append("\n\n[env: CODEX_BIN=");
    long.append(env);
    long.append("]\n[default: codex]");
    (short, long)
}

} // verus!
