//! What holds of whole runs of the program.

use vstd::prelude::*;

use crate::cli::CliVerbosity;
use crate::cli::CommandFacts;
use crate::cli::Verbosity;
use crate::main_session;
use crate::main_session::MainAction;
use crate::main_session::MainInput;
use crate::main_session::MainPhase;
use crate::main_session::MainState;
use crate::main_session::ProjectQueueExit;
use crate::main_session::ResumeExit;
use crate::main_session::ResumePickerOutcome;
use crate::startup::GlobalGitignorePromptOutcome;
use crate::startup::StartupSetupStep;

verus! {

/// A run and what it asks for after some results, handed to it one after the other.
pub open spec fn ran(
    at: (MainState, MainAction<Seq<char>, Seq<Seq<char>>>),
    inputs: Seq<MainInput<Seq<char>, Seq<Seq<char>>>>,
) -> (MainState, MainAction<Seq<char>, Seq<Seq<char>>>)
    decreases inputs.len(),
{
    if inputs.len() == 0 {
        at
    } else {
        main_session::main_next(ran(at, inputs.drop_last()).0, inputs.last())
    }
}

/// What a run that was asked to do something does not lose on the way, whatever comes back from
/// outside: what it was asked to do, and with which prompt.
pub open spec fn keeps_to(
    at: (MainState, MainAction<Seq<char>, Seq<Seq<char>>>),
    command: Option<CommandFacts>,
) -> bool {
    &&& at.0.command == command
    &&& match at.1 {
        MainAction::RunExecJson { prompt, .. } => match command {
            Some(CommandFacts::Exec { prompt: asked, json, .. }) => json && prompt == asked,
            _ => false,
        },
        MainAction::RunExecHuman { prompt, verbosity, .. } => match command {
            Some(CommandFacts::Exec { prompt: asked, json, verbosity: wanted }) => {
                &&& !json
                &&& prompt == asked
                &&& wanted == Some(CliVerbosity::Minimal) ==> verbosity == Verbosity::Minimal
                &&& wanted == Some(CliVerbosity::Simple) ==> verbosity == Verbosity::Simple
            },
            _ => false,
        },
        _ => true,
    }
}

/// Where an `exec` reads or has read the configured verbosity, it writes no events.
spec fn exec_inv(s: MainState) -> bool {
    match s.phase {
        MainPhase::ExecWorkdir => s.command matches Some(CommandFacts::Exec { .. }),
        MainPhase::ExecGitignore => s.command matches Some(CommandFacts::Exec { .. }),
        MainPhase::ExecBin => s.command matches Some(CommandFacts::Exec { .. }),
        MainPhase::ExecVerbosity => match s.command {
            Some(CommandFacts::Exec { json, verbosity, .. }) => !json && verbosity is None,
            _ => false,
        },
        MainPhase::ExecWarn => match s.command {
            Some(CommandFacts::Exec { json, verbosity, .. }) => !json && verbosity is None,
            _ => false,
        },
        _ => true,
    }
}

proof fn lemma_exec_inv(
    command: Option<CommandFacts>,
    codex_bin: Seq<char>,
    rounds: nat,
    inputs: Seq<MainInput<Seq<char>, Seq<Seq<char>>>>,
)
    ensures
        exec_inv(ran(main_session::main_start(command, codex_bin, rounds), inputs).0),
        keeps_to(ran(main_session::main_start(command, codex_bin, rounds), inputs), command),
    decreases inputs.len(),
{
    if inputs.len() > 0 {
        lemma_exec_inv(command, codex_bin, rounds, inputs.drop_last());
    }
}

/// A run of `exec` that asks for the work to be done hands on the prompt of its command line, and
/// the verbosity of its command line where there is one, whatever came before.
pub proof fn law_prompt_of_the_command_is_run(
    command: Option<CommandFacts>,
    codex_bin: Seq<char>,
    rounds: nat,
    inputs: Seq<MainInput<Seq<char>, Seq<Seq<char>>>>,
)
    ensures
        keeps_to(ran(main_session::main_start(command, codex_bin, rounds), inputs), command),
{
    lemma_exec_inv(command, codex_bin, rounds, inputs);
}

/// One step keeps to what was asked for: the command stays, the backend is the one that was found,
/// and every action that names one names that one; a project that is resumed is the one that was
/// named or picked, it is remembered, and the one that is left behind after a resume is the one
/// that is remembered.
pub proof fn law_nothing_is_forgotten(
    s: MainState,
    input: MainInput<Seq<char>, Seq<Seq<char>>>,
)
    ensures
        ({
            let (t, action) = main_session::main_next(s, input);
            &&& t.command == s.command
            &&& match (s.phase, input) {
                (MainPhase::Bin, MainInput::CodexBin(Ok(bin))) => t.codex_bin == bin,
                (MainPhase::ExecBin, MainInput::CodexBin(Ok(bin))) => t.codex_bin == bin,
                _ => t.codex_bin == s.codex_bin,
            }
            &&& match (s.phase, input) {
                (MainPhase::UpdateSetting, MainInput::UpdateSetting(setting)) => {
                    t.check_for_update <==> setting != Some(false)
                },
                _ => t.check_for_update == s.check_for_update,
            }
            &&& match (s.phase, input) {
                (MainPhase::HasEntry, MainInput::HasEntry(Ok(found))) => {
                    t.asks_gitignore == !found
                },
                _ => t.asks_gitignore == s.asks_gitignore,
            }
            &&& match (s.phase, input) {
                (MainPhase::AsksVerbosity, MainInput::AsksVerbosity(asks)) => {
                    t.asks_verbosity == asks
                },
                _ => t.asks_verbosity == s.asks_verbosity,
            }
            &&& match action {
                MainAction::ResolveCodexBin { command } => command == s.codex_bin,
                MainAction::RunExecJson { codex_bin, .. } => codex_bin == t.codex_bin,
                MainAction::RunExecHuman { codex_bin, .. } => codex_bin == t.codex_bin,
                MainAction::RunAppServer { codex_bin, .. } => codex_bin == t.codex_bin,
                MainAction::Spawn { codex_bin } => codex_bin == t.codex_bin,
                MainAction::PromptUpdate { check } => check == s.check_for_update,
                MainAction::RunResume { project_path } => {
                    &&& project_path == t.project_path
                    &&& s.command == Some(
                        CommandFacts::Resume { project_path: Some(project_path) },
                    ) || (s.phase is Pick && input == (MainInput::<
                        Seq<char>,
                        Seq<Seq<char>>,
                    >::Picked(Ok(ResumePickerOutcome::Resume(project_path)))))
                },
                MainAction::TakeQueuedPrompts { project_path, resumed } => if resumed {
                    project_path == s.project_path
                } else {
                    input == MainInput::<Seq<char>, Seq<Seq<char>>>::QueueEnded(
                        Ok(ProjectQueueExit::UserRequestedExit { project_dir: project_path }),
                    )
                },
                _ => true,
            }
            &&& !(action is RunResume) ==> t.project_path == s.project_path
        }),
{
}

/// `exec --json` finds its directory, sees to the gitignore, finds the backend that it was asked to
/// use, runs the prompt on what was found, and exits with the code of that run.
pub proof fn law_exec_json_run(
    prompt: Option<Seq<char>>,
    verbosity: Option<CliVerbosity>,
    codex_bin: Seq<char>,
    rounds: nat,
    bin: Seq<char>,
    code: i32,
)
    ensures
        ({
            let command = Some(CommandFacts::Exec { prompt, json: true, verbosity });
            let a = main_session::main_start(command, codex_bin, rounds);
            let b = main_session::main_next(a.0, MainInput::Outcome(Ok(())));
            let c = main_session::main_next(b.0, MainInput::Done);
            let d = main_session::main_next(c.0, MainInput::CodexBin(Ok(bin)));
            let e = main_session::main_next(d.0, MainInput::ExitCode(code));
            &&& a.1 is ResolveWorkdir
            &&& b.1 is ApplyDefaultGitignore
            &&& c.1 == (MainAction::<Seq<char>, Seq<Seq<char>>>::ResolveCodexBin {
                command: codex_bin,
            })
            &&& d.1 == (MainAction::<Seq<char>, Seq<Seq<char>>>::RunExecJson {
                codex_bin: bin,
                prompt,
            })
            &&& e.1 == (MainAction::<Seq<char>, Seq<Seq<char>>>::Exit { code })
            &&& e.0.phase is Ended
        }),
{
}

/// `exec` finds its directory, sees to the gitignore, finds the backend that it was asked to use,
/// and runs the prompt on what was found, at the verbosity of the command line; without one, at the
/// one that is configured, and else at the lowest, a configuration that cannot be read being warned
/// of. It exits with the code of that run.
pub proof fn law_exec_human_run(
    prompt: Option<Seq<char>>,
    codex_bin: Seq<char>,
    rounds: nat,
    bin: Seq<char>,
    configured: Verbosity,
    error: Seq<char>,
    code: i32,
)
    ensures
        ({
            let minimal = Some(
                CommandFacts::Exec {
                    prompt,
                    json: false,
                    verbosity: Some(CliVerbosity::Minimal),
                },
            );
            let simple = Some(
                CommandFacts::Exec { prompt, json: false, verbosity: Some(CliVerbosity::Simple) },
            );
            let m = main_session::main_start(minimal, codex_bin, rounds);
            let n = main_session::main_start(simple, codex_bin, rounds);
            let mb = main_session::main_next(m.0, MainInput::Outcome(Ok(())));
            let nb = main_session::main_next(n.0, MainInput::Outcome(Ok(())));
            let mc = main_session::main_next(mb.0, MainInput::Done);
            let nc = main_session::main_next(nb.0, MainInput::Done);
            let md = main_session::main_next(mc.0, MainInput::CodexBin(Ok(bin)));
            let nd = main_session::main_next(nc.0, MainInput::CodexBin(Ok(bin)));
            let me = main_session::main_next(md.0, MainInput::ExitCode(code));
            let ne = main_session::main_next(nd.0, MainInput::ExitCode(code));
            &&& m.1 is ResolveWorkdir && n.1 is ResolveWorkdir
            &&& mb.1 is ApplyDefaultGitignore && nb.1 is ApplyDefaultGitignore
            &&& mc.1 == (MainAction::<Seq<char>, Seq<Seq<char>>>::ResolveCodexBin {
                command: codex_bin,
            })
            &&& nc.1 == mc.1
            &&& md.1 == (MainAction::<Seq<char>, Seq<Seq<char>>>::RunExecHuman {
                codex_bin: bin,
                prompt,
                verbosity: Verbosity::Minimal,
            })
            &&& nd.1 == (MainAction::<Seq<char>, Seq<Seq<char>>>::RunExecHuman {
                codex_bin: bin,
                prompt,
                verbosity: Verbosity::Simple,
            })
            &&& me.1 == (MainAction::<Seq<char>, Seq<Seq<char>>>::Exit { code })
            &&& ne.1 == me.1
        }),
        ({
            let open = Some(CommandFacts::Exec { prompt, json: false, verbosity: None });
            let a = main_session::main_start(open, codex_bin, rounds);
            let b = main_session::main_next(a.0, MainInput::Outcome(Ok(())));
            let c = main_session::main_next(b.0, MainInput::Done);
            let d = main_session::main_next(c.0, MainInput::CodexBin(Ok(bin)));
            let found = main_session::main_next(d.0, MainInput::Configured(Ok(Some(configured))));
            let none = main_session::main_next(d.0, MainInput::Configured(Ok(None)));
            let warned = main_session::main_next(d.0, MainInput::Configured(Err(error)));
            let after = main_session::main_next(warned.0, MainInput::Done);
            &&& b.1 is ApplyDefaultGitignore
            &&& c.1 == (MainAction::<Seq<char>, Seq<Seq<char>>>::ResolveCodexBin {
                command: codex_bin,
            })
            &&& d.1 is LoadVerbosity
            &&& found.1 == (MainAction::<Seq<char>, Seq<Seq<char>>>::RunExecHuman {
                codex_bin: bin,
                prompt,
                verbosity: configured,
            })
            &&& none.1 == (MainAction::<Seq<char>, Seq<Seq<char>>>::RunExecHuman {
                codex_bin: bin,
                prompt,
                verbosity: Verbosity::Minimal,
            })
            &&& warned.1 == (MainAction::<Seq<char>, Seq<Seq<char>>>::PrintError {
                line: "warning: "@ + "failed to load TUI verbosity"@ + ": "@ + error,
            })
            &&& after.1 == none.1
            &&& main_session::main_next(found.0, MainInput::ExitCode(code)).1 == (MainAction::<
                Seq<char>,
                Seq<Seq<char>>,
            >::Exit { code })
            &&& main_session::main_next(none.0, MainInput::ExitCode(code)).1 == (MainAction::<
                Seq<char>,
                Seq<Seq<char>>,
            >::Exit { code })
            &&& main_session::main_next(after.0, MainInput::ExitCode(code)).1 == (MainAction::<
                Seq<char>,
                Seq<Seq<char>>,
            >::Exit { code })
        }),
{
}

/// An `exec` that finds no directory or no backend says so, with the reason or with the command
/// that it was told was not found, and exits with one; where it writes events, it writes the same
/// as an event in between.
pub proof fn law_exec_cannot_start(
    prompt: Option<Seq<char>>,
    json: bool,
    verbosity: Option<CliVerbosity>,
    codex_bin: Seq<char>,
    rounds: nat,
    reason: Seq<char>,
    missing: Seq<char>,
)
    ensures
        ({
            let command = Some(CommandFacts::Exec { prompt, json, verbosity });
            let a = main_session::main_start(command, codex_bin, rounds);
            let no_dir = main_session::main_next(a.0, MainInput::Outcome(Err(reason)));
            let b = main_session::main_next(a.0, MainInput::Outcome(Ok(())));
            let c = main_session::main_next(b.0, MainInput::Done);
            let no_bin = main_session::main_next(c.0, MainInput::CodexBin(Err(missing)));
            let dir_2 = main_session::main_next(no_dir.0, MainInput::Done);
            let bin_2 = main_session::main_next(no_bin.0, MainInput::Done);
            let exit = MainAction::<Seq<char>, Seq<Seq<char>>>::Exit { code: 1 };
            &&& no_dir.1 == (MainAction::<Seq<char>, Seq<Seq<char>>>::PrintError {
                line: "error: resolve current directory: "@ + reason,
            })
            &&& no_bin.1 == (MainAction::<Seq<char>, Seq<Seq<char>>>::PrintStartupError {
                command: missing,
            })
            &&& json ==> {
                &&& dir_2.1 == (MainAction::<Seq<char>, Seq<Seq<char>>>::WritePreflightError {
                    message: "resolve current directory: "@ + reason,
                })
                &&& bin_2.1 == (MainAction::<Seq<char>, Seq<Seq<char>>>::WritePreflightError {
                    message: "Failed to find `"@ + missing + "` binary in PATH"@,
                })
                &&& main_session::main_next(dir_2.0, MainInput::Done).1 == exit
                &&& main_session::main_next(bin_2.0, MainInput::Done).1 == exit
            }
            &&& !json ==> dir_2.1 == exit && bin_2.1 == exit
        }),
{
}

/// The app-server finds its directory, finds the backend that it was asked to use, sees to the
/// gitignore, sets up the home directory of the backend, and serves with what was found; where the
/// home directory cannot be set up, that is warned of and it serves without one. A failure to serve
/// is the failure of the run.
pub proof fn law_app_server_run(
    codex_bin: Seq<char>,
    rounds: nat,
    bin: Seq<char>,
    error: Seq<char>,
)
    requires
        rounds <= u32::MAX,
    ensures
        ({
            let a = main_session::main_start(Some(CommandFacts::AppServer), codex_bin, rounds);
            let b = main_session::main_next(a.0, MainInput::Outcome(Ok(())));
            let c = main_session::main_next(b.0, MainInput::CodexBin(Ok(bin)));
            let d = main_session::main_next(c.0, MainInput::Done);
            let e = main_session::main_next(d.0, MainInput::Outcome(Ok(())));
            let warned = main_session::main_next(d.0, MainInput::Outcome(Err(error)));
            let f = main_session::main_next(warned.0, MainInput::Done);
            let failed = MainAction::<Seq<char>, Seq<Seq<char>>>::Fail {
                context: None,
                cause: error,
            };
            &&& a.1 is ResolveWorkdir
            &&& b.1 == (MainAction::<Seq<char>, Seq<Seq<char>>>::ResolveCodexBin {
                command: codex_bin,
            })
            &&& c.1 is ApplyDefaultGitignore
            &&& d.1 is EnsureCompatHome
            &&& e.1 == (MainAction::<Seq<char>, Seq<Seq<char>>>::RunAppServer {
                codex_bin: bin,
                with_compat_home: true,
            })
            &&& warned.1 == (MainAction::<Seq<char>, Seq<Seq<char>>>::PrintError {
                line: "warning: "@ + "failed to configure codex-compat home"@ + ": "@ + error,
            })
            &&& f.1 == (MainAction::<Seq<char>, Seq<Seq<char>>>::RunAppServer {
                codex_bin: bin,
                with_compat_home: false,
            })
            &&& main_session::main_next(e.0, MainInput::Outcome(Ok(()))).1 is Finish
            &&& main_session::main_next(f.0, MainInput::Outcome(Ok(()))).1 is Finish
            &&& main_session::main_next(e.0, MainInput::Outcome(Err(error))).1 == failed
            &&& main_session::main_next(f.0, MainInput::Outcome(Err(error))).1 == failed
        }),
{
}

/// A run that is neither an `exec` nor the app-server, up to the point where its terminal is set
/// up: the directory is found, and the backend that it was asked to use.
pub proof fn law_run_at_a_terminal_starts(
    command: Option<CommandFacts>,
    codex_bin: Seq<char>,
    rounds: nat,
    bin: Seq<char>,
    error: Seq<char>,
    setting: Option<bool>,
)
    requires
        rounds <= u32::MAX,
        command is None || command matches Some(CommandFacts::Resume { .. }),
    ensures
        ({
            let a = main_session::main_start(command, codex_bin, rounds);
            let b = main_session::main_next(a.0, MainInput::Outcome(Ok(())));
            let c = main_session::main_next(b.0, MainInput::CodexBin(Ok(bin)));
            let d = main_session::main_next(c.0, MainInput::Outcome(Ok(())));
            let warned = main_session::main_next(c.0, MainInput::Outcome(Err(error)));
            let after = main_session::main_next(warned.0, MainInput::Done);
            let e = main_session::main_next(d.0, MainInput::UpdateSetting(setting));
            let f = main_session::main_next(e.0, MainInput::Outcome(Ok(())));
            let g = main_session::main_next(f.0, MainInput::Outcome(Ok(())));
            let no_bin = main_session::main_next(b.0, MainInput::CodexBin(Err(error)));
            &&& a.1 is ResolveWorkdir
            &&& b.1 == (MainAction::<Seq<char>, Seq<Seq<char>>>::ResolveCodexBin {
                command: codex_bin,
            })
            &&& c.1 is SetTitle
            &&& d.1 is ReadUpdateSetting
            &&& warned.1 == (MainAction::<Seq<char>, Seq<Seq<char>>>::PrintError {
                line: "warning: "@ + "failed to set terminal title"@ + ": "@ + error,
            })
            &&& after == d
            &&& e.1 is OpenUi
            &&& f.1 is SetBanner
            &&& g.1 == (MainAction::<Seq<char>, Seq<Seq<char>>>::PromptUpdate {
                check: setting != Some(false),
            })
            &&& main_session::main_next(a.0, MainInput::Outcome(Err(error))).1 == (MainAction::<
                Seq<char>,
                Seq<Seq<char>>,
            >::Fail { context: Some("resolve current directory"@), cause: error })
            &&& no_bin.1 == (MainAction::<Seq<char>, Seq<Seq<char>>>::PrintStartupError {
                command: error,
            })
            &&& main_session::main_next(no_bin.0, MainInput::Done).1 == (MainAction::<
                Seq<char>,
                Seq<Seq<char>>,
            >::Exit { code: 1 })
            &&& main_session::main_next(e.0, MainInput::Outcome(Err(error))).1 == (MainAction::<
                Seq<char>,
                Seq<Seq<char>>,
            >::Fail { context: None, cause: error })
            &&& main_session::main_next(f.0, MainInput::Outcome(Err(error))).1 == (MainAction::<
                Seq<char>,
                Seq<Seq<char>>,
            >::Fail {
                context: Some("resolve startup banner Codex model config"@),
                cause: error,
            })
            &&& g.0.phase is Update
            &&& g.0.command == command
            &&& g.0.codex_bin == bin
            &&& !g.0.asks_gitignore
        }),
{
}

/// The user who wants to update gets the command announced and run, and then the run is over, with
/// the command and its status as the reason where that failed; who does not want to goes on.
pub proof fn law_update(
    s: MainState,
    command: Seq<char>,
    status: Seq<char>,
    error: Seq<char>,
)
    requires
        s.phase is Update,
    ensures
        ({
            let a = main_session::main_next(s, MainInput::Update(Ok(Some(command))));
            let good = main_session::main_next(a.0, MainInput::Updated(Ok((true, status))));
            let bad = main_session::main_next(a.0, MainInput::Updated(Ok((false, status))));
            let none = main_session::main_next(a.0, MainInput::Updated(Err(error)));
            &&& a.1 == (MainAction::<Seq<char>, Seq<Seq<char>>>::RunUpdate {
                command,
                announcement: "Updating CodexPotter via `"@ + command + "`..."@,
            })
            &&& good.1 == (MainAction::<Seq<char>, Seq<Seq<char>>>::PrintLine {
                line: "Update ran successfully! Please restart CodexPotter."@,
            })
            &&& main_session::main_next(good.0, MainInput::Done).1 is Finish
            &&& bad.1 == (MainAction::<Seq<char>, Seq<Seq<char>>>::Fail {
                context: None,
                cause: "`"@ + command + "` failed with status "@ + status,
            })
            &&& none.1 == (MainAction::<Seq<char>, Seq<Seq<char>>>::Fail {
                context: None,
                cause: error,
            })
            &&& main_session::main_next(s, MainInput::Update(Ok(None))).1 is ReadHidePrompt
            &&& main_session::main_next(s, MainInput::Update(Err(error))).1 == none.1
        }),
{
}

/// Which setup questions the user is asked. About the gitignore: where the configuration does not
/// keep from it, and the entry was looked for and is missing. About the verbosity: where the
/// configuration asks for it. They are numbered where there are both.
pub proof fn law_setup_questions(
    s: MainState,
    hide: Option<bool>,
    found: bool,
    asks: bool,
    error: Seq<char>,
)
    requires
        s.phase is HidePrompt,
        !s.asks_gitignore,
    ensures
        ({
            let first = MainAction::<Seq<char>, Seq<Seq<char>>>::PromptGitignore {
                step: if asks {
                    Some(StartupSetupStep { index: 1, total: 2 })
                } else {
                    None
                },
            };
            let only_verbosity = MainAction::<Seq<char>, Seq<Seq<char>>>::PromptVerbosity {
                step: None,
            };
            let spawn = MainAction::<Seq<char>, Seq<Seq<char>>>::Spawn { codex_bin: s.codex_bin };
            let a = main_session::main_next(s, MainInput::HidePrompt(Ok(hide)));
            let b = main_session::main_next(a.0, MainInput::HasEntry(Ok(found)));
            let c = main_session::main_next(b.0, MainInput::AsksVerbosity(asks));
            let hidden = main_session::main_next(a.0, MainInput::AsksVerbosity(asks));
            let no_config = main_session::main_next(s, MainInput::HidePrompt(Err(error)));
            let no_config_2 = main_session::main_next(no_config.0, MainInput::Done);
            let no_config_3 = main_session::main_next(
                no_config_2.0,
                MainInput::AsksVerbosity(asks),
            );
            let no_file = main_session::main_next(a.0, MainInput::HasEntry(Err(error)));
            let no_file_2 = main_session::main_next(no_file.0, MainInput::Done);
            let no_file_3 = main_session::main_next(no_file_2.0, MainInput::AsksVerbosity(asks));
            &&& if hide == Some(true) {
                &&& a.1 is ReadAsksVerbosity
                &&& hidden.1 == if asks {
                    only_verbosity
                } else {
                    spawn
                }
            } else {
                &&& a.1 is DetectGitignore
                &&& b.1 is ReadAsksVerbosity
                &&& c.1 == if !found {
                    first
                } else if asks {
                    only_verbosity
                } else {
                    spawn
                }
                &&& no_file.1 == (MainAction::<Seq<char>, Seq<Seq<char>>>::PrintError {
                    line: "warning: "@ + "failed to resolve global gitignore"@ + ": "@ + error,
                })
                &&& no_file_2.1 is ReadAsksVerbosity
                &&& no_file_3.1 == if asks {
                    only_verbosity
                } else {
                    spawn
                }
            }
            &&& no_config.1 == (MainAction::<Seq<char>, Seq<Seq<char>>>::PrintError {
                line: "warning: "@ + "failed to locate codexpotter config"@ + ": "@ + error,
            })
            &&& no_config_2.1 is ReadAsksVerbosity
            &&& no_config_3.1 == if asks {
                only_verbosity
            } else {
                spawn
            }
        }),
{
}

/// The answer about the gitignore is followed: the entry is added, or the wish not to be asked
/// again is remembered, or nothing is done; what fails is warned of. Whichever it is, the question
/// about the verbosity follows where it is to be asked, as the second of two, and else the
/// app-server is spawned.
pub proof fn law_gitignore_answer(s: MainState, error: Seq<char>)
    requires
        s.phase is AskGitignore,
        s.asks_gitignore,
    ensures
        ({
            let next = if s.asks_verbosity {
                MainAction::<Seq<char>, Seq<Seq<char>>>::PromptVerbosity {
                    step: Some(StartupSetupStep { index: 2, total: 2 }),
                }
            } else {
                MainAction::<Seq<char>, Seq<Seq<char>>>::Spawn { codex_bin: s.codex_bin }
            };
            let add = main_session::main_next(
                s,
                MainInput::Answer(Ok(GlobalGitignorePromptOutcome::AddToGlobalGitignore)),
            );
            let no = main_session::main_next(
                s,
                MainInput::Answer(Ok(GlobalGitignorePromptOutcome::No)),
            );
            let never = main_session::main_next(
                s,
                MainInput::Answer(Ok(GlobalGitignorePromptOutcome::NoDontAskAgain)),
            );
            let failed = main_session::main_next(s, MainInput::Answer(Err(error)));
            let clear = main_session::main_next(failed.0, MainInput::Done);
            let not_added = main_session::main_next(add.0, MainInput::Outcome(Err(error)));
            let not_kept = main_session::main_next(never.0, MainInput::Outcome(Err(error)));
            &&& add.1 is EnsureGitignore
            &&& never.1 is PersistHide
            &&& no.1 == next
            &&& main_session::main_next(add.0, MainInput::Outcome(Ok(()))).1 == next
            &&& main_session::main_next(never.0, MainInput::Outcome(Ok(()))).1 == next
            &&& not_added.1 == (MainAction::<Seq<char>, Seq<Seq<char>>>::PrintError {
                line: "warning: "@ + "failed to update global gitignore"@ + ": "@ + error,
            })
            &&& main_session::main_next(not_added.0, MainInput::Done).1 == next
            &&& not_kept.1 == (MainAction::<Seq<char>, Seq<Seq<char>>>::PrintError {
                line: "warning: "@ + "failed to persist config"@ + ": "@ + error,
            })
            &&& main_session::main_next(not_kept.0, MainInput::Done).1 == next
            &&& failed.1 == (MainAction::<Seq<char>, Seq<Seq<char>>>::PrintError {
                line: "warning: "@ + "global gitignore prompt failed"@ + ": "@ + error,
            })
            &&& clear.1 is ClearUi
            &&& main_session::main_next(clear.0, MainInput::Done).1 == next
        }),
{
}

/// After the question about the verbosity, answered or not, the app-server is spawned with the
/// backend that was found, and initialized. What fails there is the failure of the run.
pub proof fn law_app_server_is_spawned(s: MainState, error: Seq<char>)
    requires
        s.phase is AskVerbosity,
    ensures
        ({
            let spawn = MainAction::<Seq<char>, Seq<Seq<char>>>::Spawn { codex_bin: s.codex_bin };
            let a = main_session::main_next(s, MainInput::Outcome(Ok(())));
            let warned = main_session::main_next(s, MainInput::Outcome(Err(error)));
            let clear = main_session::main_next(warned.0, MainInput::Done);
            let b = main_session::main_next(clear.0, MainInput::Done);
            let c = main_session::main_next(a.0, MainInput::Outcome(Ok(())));
            &&& a.1 == spawn
            &&& warned.1 == (MainAction::<Seq<char>, Seq<Seq<char>>>::PrintError {
                line: "warning: "@ + "startup verbosity prompt failed"@ + ": "@ + error,
            })
            &&& clear.1 is ClearUi
            &&& b == a
            &&& c.1 is Initialize
            &&& main_session::main_next(a.0, MainInput::Outcome(Err(error))).1 == (MainAction::<
                Seq<char>,
                Seq<Seq<char>>,
            >::Fail { context: Some("spawn potter app-server"@), cause: error })
            &&& main_session::main_next(c.0, MainInput::Outcome(Err(error))).1 == (MainAction::<
                Seq<char>,
                Seq<Seq<char>>,
            >::Fail { context: Some("initialize potter app-server"@), cause: error })
        }),
{
}

/// Once the app-server is initialized: a run with a project's path resumes that project, a `resume`
/// without one lists the projects, and any other run runs what the user asks for.
pub proof fn law_what_is_run(s: MainState, path: Seq<char>)
    requires
        s.phase is Initialize,
    ensures
        ({
            let a = main_session::main_next(s, MainInput::Outcome(Ok(())));
            &&& s.command == Some(CommandFacts::Resume { project_path: Some(path) }) ==> a.1 == (
            MainAction::<Seq<char>, Seq<Seq<char>>>::RunResume { project_path: path })
            &&& s.command == Some(CommandFacts::Resume { project_path: None }) ==> a.1
                is ListProjects
            &&& s.command is None ==> a.1 is RunQueue
        }),
{
}

/// What follows a resume of a project, in a state in which it was asked for: once it is done, the
/// directory is found again and the user asks for more; where the user left it, the project that
/// was resumed is the one that is left behind.
pub open spec fn resumes(
    at: (MainState, MainAction<Seq<char>, Seq<Seq<char>>>),
    path: Seq<char>,
    error: Seq<char>,
    queued: Seq<Seq<char>>,
    resume_path: Seq<char>,
) -> bool {
    let done = main_session::main_next(at.0, MainInput::Resumed(Ok(ResumeExit::Completed)));
    let left = main_session::main_next(at.0, MainInput::Resumed(Ok(ResumeExit::UserRequested)));
    let fatal = main_session::main_next(
        at.0,
        MainInput::Resumed(Ok(ResumeExit::FatalExitRequested)),
    );
    let taken = MainInput::<Seq<char>, Seq<Seq<char>>>::Queued { prompts: queued, resume_path };
    let left_2 = main_session::main_next(left.0, taken);
    let left_3 = main_session::main_next(left_2.0, MainInput::Done);
    let fatal_2 = main_session::main_next(fatal.0, taken);
    let notes = MainAction::<Seq<char>, Seq<Seq<char>>>::PrintNotes { queued, resume_path };
    &&& at.1 == (MainAction::<Seq<char>, Seq<Seq<char>>>::RunResume { project_path: path })
    &&& done.1 is ResolveWorkdir
    &&& main_session::main_next(done.0, MainInput::Outcome(Ok(()))).1 is RunQueue
    &&& main_session::main_next(done.0, MainInput::Outcome(Err(error))).1 == (MainAction::<
        Seq<char>,
        Seq<Seq<char>>,
    >::Fail { context: Some("resolve current directory after resume"@), cause: error })
    &&& left.1 == (MainAction::<Seq<char>, Seq<Seq<char>>>::TakeQueuedPrompts {
        project_path: path,
        resumed: true,
    })
    &&& left_2.1 is Shutdown
    &&& left_3.1 == notes
    &&& main_session::main_next(left_3.0, MainInput::Done).1 is Finish
    &&& fatal.1 == left.1
    &&& fatal_2.1 == notes
    &&& main_session::main_next(fatal_2.0, MainInput::Done).1 == (MainAction::<
        Seq<char>,
        Seq<Seq<char>>,
    >::Exit { code: 1 })
    &&& main_session::main_next(at.0, MainInput::Resumed(Err(error))).1 == (MainAction::<
        Seq<char>,
        Seq<Seq<char>>,
    >::Fail { context: Some("resume project"@), cause: error })
}

/// The project that the user picks is the one that is resumed, and the one that is left behind when
/// the user leaves it; a user who starts afresh asks for projects, and one who leaves ends the run.
pub proof fn law_picked_project_is_resumed(
    s: MainState,
    path: Seq<char>,
    error: Seq<char>,
    queued: Seq<Seq<char>>,
    resume_path: Seq<char>,
)
    requires
        s.phase is Pick,
    ensures
        main_session::main_next(s, MainInput::Picked(Ok(ResumePickerOutcome::Resume(path)))).1 == (
        MainAction::<Seq<char>, Seq<Seq<char>>>::RunResume { project_path: path }),
        resumes(
            main_session::main_next(s, MainInput::Picked(Ok(ResumePickerOutcome::Resume(path)))),
            path,
            error,
            queued,
            resume_path,
        ),
        main_session::main_next(s, MainInput::Picked(Ok(ResumePickerOutcome::StartFresh))).1
            is RunQueue,
        main_session::main_next(s, MainInput::Picked(Ok(ResumePickerOutcome::Exit))).1 is Finish,
        main_session::main_next(s, MainInput::Picked(Err(error))).1 == (MainAction::<
            Seq<char>,
            Seq<Seq<char>>,
        >::Fail { context: None, cause: error }),
{
}

/// The project that the command line names is the one that is resumed, and the one that is left
/// behind when the user leaves it.
pub proof fn law_named_project_is_resumed(
    s: MainState,
    path: Seq<char>,
    error: Seq<char>,
    queued: Seq<Seq<char>>,
    resume_path: Seq<char>,
)
    requires
        s.phase is Initialize,
        s.command == Some(CommandFacts::Resume { project_path: Some(path) }),
    ensures
        resumes(
            main_session::main_next(s, MainInput::Outcome(Ok(()))),
            path,
            error,
            queued,
            resume_path,
        ),
{
}

/// The projects are listed before one is picked; a list that comes with events, or does not come,
/// fails the run.
pub proof fn law_projects_are_listed(s: MainState, error: Seq<char>)
    requires
        s.phase is List,
    ensures
        main_session::main_next(s, MainInput::Listed(Ok(false))).1 is PickProject,
        main_session::main_next(s, MainInput::Listed(Ok(true))).1 == (MainAction::<
            Seq<char>,
            Seq<Seq<char>>,
        >::Fail {
            context: None,
            cause: "internal error: unexpected events during project/list"@,
        }),
        main_session::main_next(s, MainInput::Listed(Err(error))).1 == (MainAction::<
            Seq<char>,
            Seq<Seq<char>>,
        >::Fail { context: Some("project/list via potter app-server"@), cause: error }),
{
}

/// The projects of a run are done: the app-server is shut down and the run is over. A user who
/// leaves one leaves behind the project that is named, and sees the notes after the app-server was
/// shut down.
pub proof fn law_queue_ends(
    s: MainState,
    project_dir: Seq<char>,
    error: Seq<char>,
    queued: Seq<Seq<char>>,
    resume_path: Seq<char>,
)
    requires
        s.phase is Queue,
    ensures
        ({
            let done = main_session::main_next(
                s,
                MainInput::QueueEnded(Ok(ProjectQueueExit::Completed)),
            );
            let left = main_session::main_next(
                s,
                MainInput::QueueEnded(Ok(ProjectQueueExit::UserRequestedExit { project_dir })),
            );
            let taken = main_session::main_next(
                left.0,
                MainInput::Queued { prompts: queued, resume_path },
            );
            let noted = main_session::main_next(taken.0, MainInput::Done);
            &&& done.1 is Shutdown
            &&& main_session::main_next(done.0, MainInput::Done).1 is Finish
            &&& left.1 == (MainAction::<Seq<char>, Seq<Seq<char>>>::TakeQueuedPrompts {
                project_path: project_dir,
                resumed: false,
            })
            &&& taken.1 is Shutdown
            &&& noted.1 == (MainAction::<Seq<char>, Seq<Seq<char>>>::PrintNotes {
                queued,
                resume_path,
            })
            &&& main_session::main_next(noted.0, MainInput::Done).1 is Finish
            &&& main_session::main_next(s, MainInput::QueueEnded(Err(error))).1 == (MainAction::<
                Seq<char>,
                Seq<Seq<char>>,
            >::Fail { context: None, cause: error })
        }),
{
}

/// A run that resumes, without anything to ask the user and with every step succeeding, from its
/// start: the project that is resumed is the one of the command line, or the one that is picked.
pub proof fn law_resume_from_the_start(
    project_path: Option<Seq<char>>,
    codex_bin: Seq<char>,
    rounds: nat,
    bin: Seq<char>,
    picked: Seq<char>,
)
    requires
        rounds <= u32::MAX,
    ensures
        ({
            let command = Some(CommandFacts::Resume { project_path });
            let a = main_session::main_start(command, codex_bin, rounds);
            let b = main_session::main_next(a.0, MainInput::Outcome(Ok(())));
            let c = main_session::main_next(b.0, MainInput::CodexBin(Ok(bin)));
            let d = main_session::main_next(c.0, MainInput::Outcome(Ok(())));
            let e = main_session::main_next(d.0, MainInput::UpdateSetting(None));
            let f = main_session::main_next(e.0, MainInput::Outcome(Ok(())));
            let g = main_session::main_next(f.0, MainInput::Outcome(Ok(())));
            let h = main_session::main_next(g.0, MainInput::Update(Ok(None)));
            let i = main_session::main_next(h.0, MainInput::HidePrompt(Ok(None)));
            let j = main_session::main_next(i.0, MainInput::HasEntry(Ok(true)));
            let k = main_session::main_next(j.0, MainInput::AsksVerbosity(false));
            let l = main_session::main_next(k.0, MainInput::Outcome(Ok(())));
            let m = main_session::main_next(l.0, MainInput::Outcome(Ok(())));
            let n = main_session::main_next(m.0, MainInput::Listed(Ok(false)));
            let o = main_session::main_next(
                n.0,
                MainInput::Picked(Ok(ResumePickerOutcome::Resume(picked))),
            );
            &&& k.1 == (MainAction::<Seq<char>, Seq<Seq<char>>>::Spawn { codex_bin: bin })
            &&& l.1 is Initialize
            &&& match project_path {
                Some(path) => m.1 == (MainAction::<Seq<char>, Seq<Seq<char>>>::RunResume {
                    project_path: path,
                }),
                None => {
                    &&& m.1 is ListProjects
                    &&& n.1 is PickProject
                    &&& o.1 == (MainAction::<Seq<char>, Seq<Seq<char>>>::RunResume {
                        project_path: picked,
                    })
                },
            }
        }),
{
}

/// The result of an action, of whatever value, is one that can come back for it.
pub open spec fn answers(
    action: MainAction<Seq<char>, Seq<Seq<char>>>,
    input: MainInput<Seq<char>, Seq<Seq<char>>>,
) -> bool {
    match action {
        MainAction::ResolveWorkdir => input is Outcome,
        MainAction::ResolveCodexBin { .. } => input is CodexBin,
        MainAction::LoadVerbosity => input is Configured,
        MainAction::RunExecJson { .. } => input is ExitCode,
        MainAction::RunExecHuman { .. } => input is ExitCode,
        MainAction::EnsureCompatHome => input is Outcome,
        MainAction::RunAppServer { .. } => input is Outcome,
        MainAction::SetTitle => input is Outcome,
        MainAction::ReadUpdateSetting => input is UpdateSetting,
        MainAction::OpenUi => input is Outcome,
        MainAction::SetBanner => input is Outcome,
        MainAction::PromptUpdate { .. } => input is Update,
        MainAction::RunUpdate { .. } => input is Updated,
        MainAction::ReadHidePrompt => input is HidePrompt,
        MainAction::DetectGitignore => input is HasEntry,
        MainAction::ReadAsksVerbosity => input is AsksVerbosity,
        MainAction::PromptGitignore { .. } => input is Answer,
        MainAction::EnsureGitignore => input is Outcome,
        MainAction::PersistHide => input is Outcome,
        MainAction::PromptVerbosity { .. } => input is Outcome,
        MainAction::Spawn { .. } => input is Outcome,
        MainAction::Initialize => input is Outcome,
        MainAction::ListProjects => input is Listed,
        MainAction::PickProject => input is Picked,
        MainAction::RunResume { .. } => input is Resumed,
        MainAction::RunQueue => input is QueueEnded,
        MainAction::TakeQueuedPrompts { .. } => input is Queued,
        MainAction::Fail { .. } => false,
        MainAction::Finish => false,
        MainAction::Exit { .. } => false,
        _ => input is Done,
    }
}

/// Whatever comes back for an action can be handed in: a run is never stuck before its end, and is
/// over once it failed, finished or exited.
pub proof fn law_every_result_can_be_handed_in(
    s: MainState,
    input: MainInput<Seq<char>, Seq<Seq<char>>>,
    result: MainInput<Seq<char>, Seq<Seq<char>>>,
)
    requires
        main_session::fits(s.phase, input),
    ensures
        ({
            let (t, action) = main_session::main_next(s, input);
            main_session::fits(t.phase, result) <==> answers(action, result)
        }),
{
}

/// So it is from the start.
pub proof fn law_first_result_can_be_handed_in(
    command: Option<CommandFacts>,
    codex_bin: Seq<char>,
    rounds: nat,
    result: MainInput<Seq<char>, Seq<Seq<char>>>,
)
    ensures
        ({
            let (t, action) = main_session::main_start(command, codex_bin, rounds);
            main_session::fits(t.phase, result) <==> answers(action, result)
        }),
{
}

} // verus!
