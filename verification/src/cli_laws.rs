//! What holds of the command line.

use vstd::prelude::*;

use crate::cli;
use crate::cli::CliSandbox;
use crate::cli::CliVerbosity;
use crate::cli::CommandFacts;
use crate::cli::ValueFacts;
use crate::cli_help;
use crate::launch;
use crate::launch::SandboxMode;
use crate::paths;
use crate::text;
use crate::text_laws;

verus! {

/// The options that stand anywhere on the command line, each in its place.
pub proof fn law_options_have_their_places(env: Seq<char>)
    ensures
        ({
            let args = cli::root_args(env);
            &&& args.len() == 12
            &&& args[0].long == Some("codex-bin"@)
            &&& args[1].long == Some("rounds"@)
            &&& args[2].long == Some("strict-rounds"@)
            &&& args[3].long == Some("sandbox"@)
            &&& args[4].long == Some("dangerously-bypass-approvals-and-sandbox"@)
            &&& args[4].alias == Some("yolo"@)
            &&& args[5].long == Some("config"@)
            &&& args[6].long == Some("enable"@)
            &&& args[7].long == Some("disable"@)
            &&& args[8].long == Some("model"@)
            &&& args[9].long == Some("profile"@)
            &&& args[10].long == Some("search"@)
            &&& args[11].long == Some("xmodel"@)
            &&& forall|i: int| 0 <= i < 12 ==> (#[trigger] args[i]).global
            &&& forall|i: int|
                0 <= i < 12 ==> ((#[trigger] args[i]).values == if i == 4 || i == 10 || i == 11 {
                    0nat
                } else {
                    1nat
                })
            &&& forall|i: int|
                0 <= i < 12 ==> ((#[trigger] args[i]).repeatable <==> (i == 5 || i == 6 || i == 7))
            &&& forall|i: int| 0 <= i < 12 && i != 4 ==> (#[trigger] args[i]).alias is None
            &&& args[1].kind is Count && args[2].kind is Count
            &&& args[3].kind == ValueFacts::Choice(
                seq!["default"@, "read-only"@, "workspace-write"@, "danger-full-access"@],
            )
            &&& forall|i: int|
                0 <= i < 12 && i != 1 && i != 2 && i != 3 ==> (#[trigger] args[i]).kind is Text
        }),
{
}

/// The identifiers of the options, each in its place.
pub proof fn law_options_have_their_names(env: Seq<char>)
    ensures
        ({
            let args = cli::root_args(env);
            &&& args[0].id == "codex_bin"@
            &&& args[1].id == "rounds"@
            &&& args[2].id == "strict_rounds"@
            &&& args[3].id == "sandbox"@
            &&& args[4].id == "dangerously_bypass_approvals_and_sandbox"@
            &&& args[5].id == "config_overrides"@
            &&& args[6].id == "enable_features"@
            &&& args[7].id == "disable_features"@
            &&& args[8].id == "model"@
            &&& args[9].id == "profile"@
            &&& args[10].id == "web_search"@
            &&& args[11].id == "xmodel"@
        }),
        ({
            let args = cli::root_args(env);
            &&& args[0].value_name == Some("CODEX_BIN"@)
            &&& args[1].value_name == Some("ROUNDS"@)
            &&& args[2].value_name == Some("STRICT_ROUNDS"@)
            &&& args[3].value_name == Some("SANDBOX"@)
            &&& args[4].value_name is None
            &&& args[5].value_name == Some("CONFIG"@)
            &&& args[6].value_name == Some("FEATURE"@)
            &&& args[7].value_name == Some("FEATURE"@)
            &&& args[8].value_name == Some("MODEL"@)
            &&& args[9].value_name == Some("PROFILE"@)
            &&& args[10].value_name is None
            &&& args[11].value_name is None
        }),
{
}

/// The subcommands with their arguments, each in its place.
pub proof fn law_subcommands_have_their_places(version: Seq<char>, env: Seq<char>)
    ensures
        ({
            let all = cli::all_levels(version, env);
            &&& all.len() == 4
            &&& all[0].name == "codex-potter"@
            &&& all[0].version == Some(version)
            &&& all[0].args == cli::root_args(env)
            &&& all[1].name == "resume"@
            &&& all[1].args.len() == 1
            &&& all[1].args[0].id == "project_path"@
            &&& all[1].args[0].long is None
            &&& all[1].args[0].kind is Path
            &&& all[2].name == "exec"@
            &&& all[2].args.len() == 3
            &&& all[2].args[0].id == "prompt"@
            &&& all[2].args[0].long is None
            &&& all[2].args[0].kind is Text
            &&& all[2].args[1].long == Some("json"@)
            &&& all[2].args[1].values == 0
            &&& all[2].args[2].long == Some("verbosity"@)
            &&& all[2].args[2].values == 1
            &&& all[2].args[2].kind == ValueFacts::Choice(seq!["minimal"@, "simple"@])
            &&& all[3].name == "app-server"@
            &&& all[3].args.len() == 0
            &&& forall|i: int| 1 <= i < 4 ==> (#[trigger] all[i]).version is None
            &&& !all[1].args[0].global && !all[2].args[0].global && !all[2].args[1].global
                && !all[2].args[2].global
            &&& !all[1].args[0].repeatable && !all[2].args[0].repeatable
                && !all[2].args[1].repeatable && !all[2].args[2].repeatable
        }),
{
}

/// A sandbox is read from the name that it has on a command line, and from no other text.
pub proof fn law_sandbox_reads_back(s: Seq<char>, mode: SandboxMode)
    ensures
        cli::sandbox_value(launch::sandbox_label(mode)) == Some(
            match mode {
                SandboxMode::ReadOnly => CliSandbox::ReadOnly,
                SandboxMode::WorkspaceWrite => CliSandbox::WorkspaceWrite,
                SandboxMode::DangerFullAccess => CliSandbox::DangerFullAccess,
            },
        ),
        cli::sandbox_value("default"@) == Some(CliSandbox::Default),
        cli::sandbox_value(s) is Some <==> (s == "default"@ || s == "read-only"@ || s
            == "workspace-write"@ || s == "danger-full-access"@),
{
    reveal_strlit("default");
    reveal_strlit("read-only");
    reveal_strlit("workspace-write");
    reveal_strlit("danger-full-access");
    assert("default"@.len() == 7);
    assert("read-only"@.len() == 9);
    assert("workspace-write"@.len() == 15);
    assert("danger-full-access"@.len() == 18);
}

/// A verbosity is read from its name, and from no other text.
pub proof fn law_verbosity_reads_back(s: Seq<char>)
    ensures
        cli::verbosity_value(s) == Some(CliVerbosity::Minimal) <==> s == "minimal"@,
        cli::verbosity_value(s) == Some(CliVerbosity::Simple) <==> s == "simple"@,
        cli::verbosity_value(s) is None <==> s != "minimal"@ && s != "simple"@,
{
    reveal_strlit("minimal");
    reveal_strlit("simple");
    assert("minimal"@.len() == 7);
    assert("simple"@.len() == 6);
}

/// Every option is read from its own values, and from no others: those that can be given more than
/// once keep all their values in order, a switch is on where its value says so, and an option that
/// is not given has its default. The backend of the command line goes before that of the
/// environment.
pub proof fn law_options_are_read(
    root: Seq<Seq<Seq<char>>>,
    subs: Seq<Option<Seq<Seq<Seq<char>>>>>,
    env: Option<Seq<char>>,
)
    requires
        root.len() == 12,
        cli::cli_of(root, subs, env) is Ok,
    ensures
        ({
            let c = cli::cli_of(root, subs, env)->Ok_0;
            &&& root[0].len() > 0 ==> c.codex_bin == root[0][0]
            &&& root[0].len() == 0 && env is Some ==> c.codex_bin == env->0
            &&& root[0].len() == 0 && env is None ==> c.codex_bin == "codex"@
            &&& root[1].len() > 0 ==> Some(c.rounds) == cli::rounds_value(root[1][0])
            &&& root[1].len() == 0 ==> c.rounds == 10
            &&& root[2].len() > 0 ==> c.strict_rounds is Some && c.strict_rounds
                == cli::rounds_value(root[2][0])
            &&& root[2].len() == 0 ==> c.strict_rounds is None
            &&& root[3].len() > 0 ==> Some(c.sandbox) == cli::sandbox_value(root[3][0])
            &&& root[3].len() == 0 ==> c.sandbox == CliSandbox::Default
            &&& c.dangerously_bypass_approvals_and_sandbox <==> root[4].len() > 0 && root[4][0]
                == "true"@
            &&& c.config_overrides == root[5]
            &&& c.enable_features == root[6]
            &&& c.disable_features == root[7]
            &&& c.model == if root[8].len() > 0 {
                Some(root[8][0])
            } else {
                None
            }
            &&& c.profile == if root[9].len() > 0 {
                Some(root[9][0])
            } else {
                None
            }
            &&& c.web_search <==> root[10].len() > 0 && root[10][0] == "true"@
            &&& c.xmodel <==> root[11].len() > 0 && root[11][0] == "true"@
        }),
{
}

/// What the program is asked to do is read from the subcommand that was given, with its own values:
/// the path of a project to resume, or the prompt, the stream and the verbosity of a run. Without a
/// subcommand it is asked for nothing in particular.
pub proof fn law_subcommand_is_read(
    resume: Seq<Seq<Seq<char>>>,
    exec: Seq<Seq<Seq<char>>>,
    serve: Seq<Seq<Seq<char>>>,
)
    requires
        resume.len() == 1,
        exec.len() == 3,
    ensures
        cli::command_of(seq![Some(resume), None, None]) == Ok::<Option<CommandFacts>, Seq<char>>(
            Some(
                CommandFacts::Resume {
                    project_path: if resume[0].len() > 0 {
                        Some(resume[0][0])
                    } else {
                        None
                    },
                },
            ),
        ),
        exec[2].len() == 0 || exec[2][0] == "minimal"@ || exec[2][0] == "simple"@
            ==> cli::command_of(seq![None, Some(exec), None]) == Ok::<
            Option<CommandFacts>,
            Seq<char>,
        >(
            Some(
                CommandFacts::Exec {
                    prompt: if exec[0].len() > 0 {
                        Some(exec[0][0])
                    } else {
                        None
                    },
                    json: exec[1].len() > 0 && exec[1][0] == "true"@,
                    verbosity: if exec[2].len() == 0 {
                        None
                    } else if exec[2][0] == "minimal"@ {
                        Some(CliVerbosity::Minimal)
                    } else {
                        Some(CliVerbosity::Simple)
                    },
                },
            ),
        ),
        exec[2].len() > 0 && exec[2][0] != "minimal"@ && exec[2][0] != "simple"@
            ==> cli::command_of(seq![None, Some(exec), None]) == Err::<
            Option<CommandFacts>,
            Seq<char>,
        >(exec[2][0]),
        cli::command_of(seq![None, None, Some(serve)]) == Ok::<Option<CommandFacts>, Seq<char>>(
            Some(CommandFacts::AppServer),
        ),
        cli::command_of(seq![None, None, None]) == Ok::<Option<CommandFacts>, Seq<char>>(None),
{
    let subs = seq![None, Some(exec), None];
    assert(subs[0] is None && subs[1] == Some(exec));
    let none = Seq::<Option<Seq<Seq<Seq<char>>>>>::empty().push(None).push(None).push(None);
    assert(none =~= seq![None, None, None]);
    assert(cli::subcommand_at(none, 0) is None);
    assert(cli::subcommand_at(none, 1) is None);
    assert(cli::subcommand_at(none, 2) is None);
}

/// What was asked for is part of the command line that is read.
pub proof fn law_command_is_read(
    root: Seq<Seq<Seq<char>>>,
    subs: Seq<Option<Seq<Seq<Seq<char>>>>>,
    env: Option<Seq<char>>,
)
    ensures
        cli::cli_of(root, subs, env) matches Ok(c) ==> cli::command_of(subs) == Ok::<
            Option<CommandFacts>,
            Seq<char>,
        >(c.command),
{
}

/// A command line is refused for the first of its options with a value that means nothing, which is
/// named with that value; and for nothing else.
pub proof fn law_meaningless_values_are_named(
    root: Seq<Seq<Seq<char>>>,
    subs: Seq<Option<Seq<Seq<Seq<char>>>>>,
    env: Option<Seq<char>>,
)
    requires
        root.len() == 12,
    ensures
        ({
            let rounds = root[1].len() > 0 && cli::rounds_value(root[1][0]) is None;
            let strict = root[2].len() > 0 && cli::rounds_value(root[2][0]) is None;
            let sandbox = root[3].len() > 0 && cli::sandbox_value(root[3][0]) is None;
            let verbosity = cli::command_of(subs) is Err;
            match cli::cli_of(root, subs, env) {
                Ok(_) => !rounds && !strict && !sandbox && !verbosity,
                Err((option, value)) => if rounds {
                    option == "--rounds <ROUNDS>"@ && value == root[1][0]
                } else if strict {
                    option == "--strict-rounds <STRICT_ROUNDS>"@ && value == root[2][0]
                } else if sandbox {
                    option == "--sandbox <SANDBOX>"@ && value == root[3][0]
                } else {
                    verbosity && option == "--verbosity <VERBOSITY>"@ && value == cli::command_of(
                        subs,
                    )->Err_0
                },
            }
        }),
{
}

/// A command line without any option has the defaults alone.
pub proof fn law_defaults(env: Option<Seq<char>>)
    ensures
        ({
            let nothing = Seq::new(12, |i: int| Seq::<Seq<char>>::empty());
            let subs = seq![None, None, None];
            match cli::cli_of(nothing, subs, env) {
                Ok(c) => {
                    &&& c.codex_bin == match env {
                        Some(s) => s,
                        None => "codex"@,
                    }
                    &&& c.rounds == 10
                    &&& c.strict_rounds is None
                    &&& c.sandbox == CliSandbox::Default
                    &&& !c.dangerously_bypass_approvals_and_sandbox
                    &&& c.config_overrides.len() == 0
                    &&& c.enable_features.len() == 0
                    &&& c.disable_features.len() == 0
                    &&& c.model is None
                    &&& c.profile is None
                    &&& !c.web_search
                    &&& !c.xmodel
                    &&& c.command is None
                },
                Err(_) => false,
            }
        }),
{
    let none = Seq::<Option<Seq<Seq<Seq<char>>>>>::empty().push(None).push(None).push(None);
    assert(none =~= seq![None, None, None]);
    assert(cli::subcommand_at(none, 0) is None);
    assert(cli::subcommand_at(none, 1) is None);
    assert(cli::subcommand_at(none, 2) is None);
}

/// An environment without `CODEX_BIN` shows nothing for it, and one with it shows what it holds; so
/// does the help.
pub proof fn law_environment_is_shown(env: String)
    ensures
        cli::env_text(Some(env)) == env@,
        cli::env_text(None).len() == 0,
        cli::root_args(env@)[0].help == cli_help::CODEX_BIN_HELP@ + " [env: CODEX_BIN="@ + env@
            + "] [default: codex]"@,
        cli::root_args(env@)[0].long_help == Some(
            cli_help::CODEX_BIN_HELP@ + "\n\n[env: CODEX_BIN="@ + env@ + "]\n[default: codex]"@,
        ),
{
}

/// What is said of each option is what the help has for it.
pub proof fn law_help_of_the_options(env: Seq<char>)
    ensures
        ({
            let args = cli::root_args(env);
            &&& args[1].help == cli_help::ROUNDS_HELP@
            &&& args[1].long_help == Some(cli_help::ROUNDS_LONG_HELP@)
            &&& args[2].help == cli_help::STRICT_ROUNDS_HELP@
            &&& args[2].long_help == Some(cli_help::STRICT_ROUNDS_LONG_HELP@)
            &&& args[3].help == cli_help::SANDBOX_HELP@
            &&& args[3].long_help == Some(cli_help::SANDBOX_LONG_HELP@)
            &&& args[4].help == cli_help::BYPASS_HELP@
            &&& args[4].long_help == Some(cli_help::BYPASS_LONG_HELP@)
            &&& args[5].help == cli_help::CONFIG_HELP@ && args[5].long_help is None
            &&& args[6].help == cli_help::ENABLE_HELP@ && args[6].long_help is None
            &&& args[7].help == cli_help::DISABLE_HELP@ && args[7].long_help is None
            &&& args[8].help == cli_help::MODEL_HELP@ && args[8].long_help is None
            &&& args[9].help == cli_help::PROFILE_HELP@ && args[9].long_help is None
            &&& args[10].help == cli_help::SEARCH_HELP@ && args[10].long_help is None
            &&& args[11].help == cli_help::XMODEL_HELP@
            &&& args[11].long_help == Some(cli_help::XMODEL_LONG_HELP@)
        }),
{
}

/// Arguments that are refused exit with two where what is said of them is an error, and with zero
/// where it was asked for.
pub proof fn law_refusal(
    refusal: cli::ArgsRefusal,
    levels: Seq<cli::LevelFacts>,
    argv: Seq<Seq<char>>,
)
    requires
        cli::is_refusal(refusal, levels, argv),
    ensures
        refusal.use_stderr == cli::clap_uses_stderr(levels, argv),
        refusal.exit_code == 2 <==> refusal.use_stderr,
        refusal.exit_code == 0 <==> !refusal.use_stderr,
        argv.len() == 0 || paths::is_portable(argv[0]) ==> refusal.message@ == cli::clap_message(
            levels,
            argv,
        ),
{
}

/// A value that means nothing is handed out with its option, both as they are.
pub proof fn law_invalid_value(option: &'static str, value: String)
    ensures
        cli::invalid_value(cli::CliError::InvalidValue { option, value }) == (option@, value@),
{
}

/// A number of rounds that is written in decimal notation is read as that number, with a plus sign
/// or without; zero is read as none.
pub proof fn law_rounds_read_back(n: nat)
    ensures
        1 <= n <= usize::MAX ==> cli::rounds_value(text::decimal(n)) == Some(n),
        1 <= n <= usize::MAX ==> cli::rounds_value(seq!['+'] + text::decimal(n)) == Some(n),
        n == 0 || n > usize::MAX ==> cli::rounds_value(text::decimal(n)) is None,
{
    text_laws::law_decimal_reads_back(n);
    let s = text::decimal(n);
    assert(cli::is_digit(s[0]));
    assert(cli::without_plus(s) == s);
    assert((seq!['+'] + s).skip(1) =~= s);
}

/// A text that is read as a number of rounds is made of digits alone, but for a plus sign before
/// them, and stands for that number.
pub proof fn law_rounds_are_digits(s: Seq<char>)
    requires
        cli::rounds_value(s) is Some,
    ensures
        ({
            let digits = if s.len() > 0 && s[0] == '+' {
                s.skip(1)
            } else {
                s
            };
            &&& digits.len() > 0
            &&& forall|i: int| 0 <= i < digits.len() ==> '0' <= #[trigger] digits[i] <= '9'
            &&& cli::rounds_value(s) == Some(cli::digits_value(digits))
        }),
{
    let digits = cli::without_plus(s);
    assert forall|i: int| 0 <= i < digits.len() implies '0' <= #[trigger] digits[i] <= '9' by {
        assert(cli::is_digit(digits[i]));
    }
}

/// A digit more counts ten times what was before it, and itself.
pub proof fn law_digits_count_by_tens(s: Seq<char>, d: nat)
    requires
        d < 10,
    ensures
        cli::digits_value(s.push(text::digit(d))) == 10 * cli::digits_value(s) + d,
        cli::digits_value(Seq::<char>::empty()) == 0,
{
    text_laws::law_digit_reads_back(d);
    assert(s.push(text::digit(d)).drop_last() =~= s);
}

/// What is said of each command, and of its arguments, is what the help has for it.
pub proof fn law_help_of_the_commands(version: Seq<char>, env: Seq<char>)
    ensures
        ({
            let all = cli::all_levels(version, env);
            &&& all[0].about == cli_help::ROOT_ABOUT@ && all[0].long_about is None
            &&& all[1].about == cli_help::RESUME_ABOUT@ && all[1].long_about is None
            &&& all[2].about == cli_help::EXEC_ABOUT@ && all[2].long_about is None
            &&& all[3].about == cli_help::APP_SERVER_ABOUT@
            &&& all[3].long_about == Some(cli_help::APP_SERVER_LONG_ABOUT@)
            &&& all[1].args[0].help == cli_help::PROJECT_PATH_HELP@
            &&& all[1].args[0].value_name == Some("PROJECT_PATH"@)
            &&& all[2].args[0].help == cli_help::PROMPT_HELP@
            &&& all[2].args[0].value_name == Some("PROMPT"@)
            &&& all[2].args[1].help == cli_help::JSON_HELP@
            &&& all[2].args[2].help == cli_help::VERBOSITY_HELP@
            &&& all[2].args[2].value_name == Some("VERBOSITY"@)
        }),
{
}

} // verus!
