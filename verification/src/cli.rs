//! The command line.
//!
//! The arguments are split up by `clap`, from a table of what there is; what their values mean is
//! decided here.

use std::num::NonZeroUsize;

use clap::builder::Resettable;
use clap::builder::StyledStr;
use clap::builder::ValueParser;
use vstd::prelude::*;

use crate::cli_help;
use crate::launch::SandboxMode;
use crate::launch::UpstreamCodexCliArgs;
use crate::paths;
use crate::rounds::Rounds;
use crate::startup;
use crate::text;

verus! {

/// The sandbox that is asked for on the command line.
#[derive(Debug, Clone, Copy, PartialEq, Eq, Structural)]
pub enum CliSandbox {
    /// None in particular: the backend decides.
    Default,
    ReadOnly,
    WorkspaceWrite,
    DangerFullAccess,
}

impl Default for CliSandbox {
    fn default() -> (r: Self)
        ensures
            r == CliSandbox::Default,
    {
        CliSandbox::Default
    }
}

impl CliSandbox {
    /// The sandbox to ask the backend for, if any.
    pub fn as_protocol(self) -> (r: Option<SandboxMode>)
        ensures
            r == (match self {
                CliSandbox::Default => None,
                CliSandbox::ReadOnly => Some(SandboxMode::ReadOnly),
                CliSandbox::WorkspaceWrite => Some(SandboxMode::WorkspaceWrite),
                CliSandbox::DangerFullAccess => Some(SandboxMode::DangerFullAccess),
            }),
    {
        match self {
            CliSandbox::Default => None,
            CliSandbox::ReadOnly => Some(SandboxMode::ReadOnly),
            CliSandbox::WorkspaceWrite => Some(SandboxMode::WorkspaceWrite),
            CliSandbox::DangerFullAccess => Some(SandboxMode::DangerFullAccess),
        }
    }
}

/// How much a transcript tells, as asked for on the command line.
#[derive(Debug, Clone, Copy, PartialEq, Eq, Structural)]
pub enum CliVerbosity {
    Minimal,
    Simple,
}

/// How much a transcript tells.
#[derive(Debug, Clone, Copy, PartialEq, Eq, Structural)]
pub enum Verbosity {
    Minimal,
    Simple,
}

impl From<CliVerbosity> for Verbosity {
    fn from(value: CliVerbosity) -> (r: Self) {
        match value {
            CliVerbosity::Minimal => Verbosity::Minimal,
            CliVerbosity::Simple => Verbosity::Simple,
        }
    }
}

impl vstd::std_specs::convert::FromSpecImpl<CliVerbosity> for Verbosity {
    open spec fn obeys_from_spec() -> bool {
        true
    }

    open spec fn from_spec(value: CliVerbosity) -> Verbosity {
        match value {
            CliVerbosity::Minimal => Verbosity::Minimal,
            CliVerbosity::Simple => Verbosity::Simple,
        }
    }
}

/// The verbosity of a transcript: that of the command line, or that of the configuration, or
/// else minimal.
pub fn resolve_exec_human_verbosity(
    cli_override: Option<CliVerbosity>,
    configured: Option<Verbosity>,
) -> (r: Verbosity)
    ensures
        r == (match (cli_override, configured) {
            (Some(CliVerbosity::Minimal), _) => Verbosity::Minimal,
            (Some(CliVerbosity::Simple), _) => Verbosity::Simple,
            (None, Some(v)) => v,
            (None, None) => Verbosity::Minimal,
        }),
{
    match cli_override {
        Some(v) => Verbosity::from(v),
        None => match configured {
            Some(v) => v,
            None => Verbosity::Minimal,
        },
    }
}

/// What is known of the configuration when a transcript is about to start.
#[derive(Debug, Clone)]
pub enum ConfiguredVerbosity {
    Loaded(Option<Verbosity>),
    Failed { error: String },
}

/// The verbosity of a transcript, and a warning where the configuration was needed but could not
/// be loaded. The configuration counts for nothing where the command line says what to do.
pub fn load_exec_human_verbosity(
    cli_override: Option<CliVerbosity>,
    configured: &ConfiguredVerbosity,
) -> (r: (Verbosity, Option<String>))
    ensures
        cli_override matches Some(v) ==> r.1 is None && r.0 == (match v {
            CliVerbosity::Minimal => Verbosity::Minimal,
            CliVerbosity::Simple => Verbosity::Simple,
        }),
        cli_override is None ==> match *configured {
            ConfiguredVerbosity::Loaded(v) => r.1 is None && r.0 == (match v {
                Some(v) => v,
                None => Verbosity::Minimal,
            }),
            ConfiguredVerbosity::Failed { error } => r.0 == Verbosity::Minimal && text::opt_text(
                r.1,
            ) == Some(startup::warning("failed to load TUI verbosity"@, error@)),
        },
{
    match cli_override {
        Some(v) => (resolve_exec_human_verbosity(Some(v), None), None),
        None => match configured {
            ConfiguredVerbosity::Loaded(v) => (resolve_exec_human_verbosity(None, *v), None),
            ConfiguredVerbosity::Failed { error } => (
                Verbosity::Minimal,
                Some(startup::warn("failed to load TUI verbosity", error.as_str())),
            ),
        },
    }
}

/// What the program is asked to do, other than to run interactively.
#[derive(Debug)]
pub enum CliCommand {
    /// Resume a project: the one at this path, or one that is picked.
    Resume { project_path: Option<String> },
    /// Run without anybody at the terminal.
    Exec { prompt: Option<String>, json: bool, verbosity: Option<CliVerbosity> },
    /// Serve other processes.
    AppServer,
}

/// The command line.
#[derive(Debug)]
pub struct Cli {
    pub codex_bin: String,
    pub rounds: Rounds,
    pub strict_rounds: Option<Rounds>,
    pub sandbox: CliSandbox,
    pub dangerously_bypass_approvals_and_sandbox: bool,
    pub upstream_cli_args: UpstreamCodexCliArgs,
    pub xmodel: bool,
    pub command: Option<CliCommand>,
}

impl Cli {
    /// The number of rounds to run: the strict one, where there is one.
    pub fn effective_rounds(&self) -> (r: Rounds)
        ensures
            r@ == (match self.strict_rounds {
                Some(n) => n@,
                None => self.rounds@,
            }),
    {
        match self.strict_rounds {
            Some(n) => n,
            None => self.rounds,
        }
    }

    /// Whether exactly that many rounds are to be run.
    pub fn strict_rounds_enabled(&self) -> (r: bool)
        ensures
            r == self.strict_rounds is Some,
    {
        self.strict_rounds.is_some()
    }
}

/// What a value of an argument has to be.
#[derive(Debug, Clone)]
pub enum ValueKind {
    /// Any text.
    Text,
    /// A number, at least one.
    Count,
    /// A path.
    Path,
    /// One of these.
    Choice(Vec<&'static str>),
}

/// The mathematical counterpart of [`ValueKind`].
pub enum ValueFacts {
    Text,
    Count,
    Path,
    Choice(Seq<Seq<char>>),
}

impl View for ValueKind {
    type V = ValueFacts;

    open spec fn view(&self) -> ValueFacts {
        match *self {
            ValueKind::Text => ValueFacts::Text,
            ValueKind::Count => ValueFacts::Count,
            ValueKind::Path => ValueFacts::Path,
            ValueKind::Choice(names) => ValueFacts::Choice(literals(names@)),
        }
    }
}

/// An argument: a switch where it takes no value, and positional where it has no long name.
#[derive(Debug, Clone)]
pub struct ArgSpec {
    pub id: &'static str,
    pub long: Option<&'static str>,
    pub alias: Option<&'static str>,
    pub values: usize,
    pub repeatable: bool,
    pub global: bool,
    /// What a value has to be.
    pub kind: ValueKind,
    /// What stands for a value in the help.
    pub value_name: Option<&'static str>,
    /// What the help says of the argument, in short.
    pub help: String,
    /// What the help says of the argument at length.
    pub long_help: Option<String>,
}

/// A command, with its arguments.
#[derive(Debug)]
pub struct LevelSpec {
    pub name: &'static str,
    pub version: Option<&'static str>,
    /// What the help says of the command, in short.
    pub about: &'static str,
    /// What the help says of the command at length.
    pub long_about: Option<&'static str>,
    pub args: Vec<ArgSpec>,
}

/// The command line, as a table.
#[derive(Debug)]
pub struct CommandSpec {
    pub root: LevelSpec,
    pub subcommands: Vec<LevelSpec>,
}

/// The arguments of a command line, split up: the values of every argument, in the order of the
/// table. A switch has the value `true` or `false`.
#[derive(Debug)]
pub struct ParsedArgs {
    pub root: Vec<Vec<String>>,
    /// The values of a subcommand, for the one that was given.
    pub subcommands: Vec<Option<Vec<Vec<String>>>>,
}

/// The mathematical counterpart of [`ArgSpec`].
pub struct ArgFacts {
    pub id: Seq<char>,
    pub long: Option<Seq<char>>,
    pub alias: Option<Seq<char>>,
    pub values: nat,
    pub repeatable: bool,
    pub global: bool,
    pub kind: ValueFacts,
    pub value_name: Option<Seq<char>>,
    pub help: Seq<char>,
    pub long_help: Option<Seq<char>>,
}

/// The mathematical counterpart of [`LevelSpec`].
pub struct LevelFacts {
    pub name: Seq<char>,
    pub version: Option<Seq<char>>,
    pub about: Seq<char>,
    pub long_about: Option<Seq<char>>,
    pub args: Seq<ArgFacts>,
}

/// The text of an optional literal.
pub open spec fn opt_literal(s: Option<&'static str>) -> Option<Seq<char>> {
    match s {
        Some(t) => Some(t@),
        None => None,
    }
}

/// The texts of some literals.
pub open spec fn literals(v: Seq<&'static str>) -> Seq<Seq<char>> {
    Seq::new(v.len(), |i: int| v[i]@)
}

impl View for ArgSpec {
    type V = ArgFacts;

    open spec fn view(&self) -> ArgFacts {
        ArgFacts {
            id: self.id@,
            long: opt_literal(self.long),
            alias: opt_literal(self.alias),
            values: self.values as nat,
            repeatable: self.repeatable,
            global: self.global,
            kind: self.kind@,
            value_name: opt_literal(self.value_name),
            help: self.help@,
            long_help: text::opt_text(self.long_help),
        }
    }
}

impl View for LevelSpec {
    type V = LevelFacts;

    open spec fn view(&self) -> LevelFacts {
        LevelFacts {
            name: self.name@,
            version: opt_literal(self.version),
            about: self.about@,
            long_about: opt_literal(self.long_about),
            args: Seq::new(self.args@.len(), |i: int| self.args@[i]@),
        }
    }
}

/// The commands of a list, mathematically.
pub open spec fn level_views(v: Seq<LevelSpec>) -> Seq<LevelFacts> {
    Seq::new(v.len(), |i: int| v[i]@)
}

/// The values of the arguments of one command, mathematically.
pub open spec fn values_view(v: Vec<Vec<String>>) -> Seq<Seq<Seq<char>>> {
    Seq::new(v@.len(), |i: int| text::texts(v@[i]@))
}

/// The values of the arguments of all subcommands, mathematically.
pub open spec fn subcommands_view(v: Seq<Option<Vec<Vec<String>>>>) -> Seq<
    Option<Seq<Seq<Seq<char>>>>,
> {
    Seq::new(
        v.len(),
        |i: int|
            match v[i] {
                Some(values) => Some(values_view(values)),
                None => None,
            },
    )
}

/// A text that may be given at most once.
pub open spec fn single(
    id: Seq<char>,
    long: Seq<char>,
    value_name: Seq<char>,
    help: Seq<char>,
) -> ArgFacts {
    ArgFacts {
        id,
        long: Some(long),
        alias: None,
        values: 1,
        repeatable: false,
        global: true,
        kind: ValueFacts::Text,
        value_name: Some(value_name),
        help,
        long_help: None,
    }
}

/// A text that may be given any number of times.
pub open spec fn list(
    id: Seq<char>,
    long: Seq<char>,
    value_name: Seq<char>,
    help: Seq<char>,
) -> ArgFacts {
    ArgFacts { repeatable: true, ..single(id, long, value_name, help) }
}

/// A number, at least one.
pub open spec fn count(
    id: Seq<char>,
    long: Seq<char>,
    value_name: Seq<char>,
    help: Seq<char>,
    long_help: Seq<char>,
) -> ArgFacts {
    ArgFacts {
        kind: ValueFacts::Count,
        long_help: Some(long_help),
        ..single(id, long, value_name, help)
    }
}

/// A switch.
pub open spec fn switch(
    id: Seq<char>,
    long: Seq<char>,
    alias: Option<Seq<char>>,
    global: bool,
    help: Seq<char>,
    long_help: Option<Seq<char>>,
) -> ArgFacts {
    ArgFacts {
        alias,
        values: 0,
        global,
        value_name: None,
        long_help,
        ..single(id, long, seq![], help)
    }
}

/// A value that is known by its place.
pub open spec fn positional(
    id: Seq<char>,
    kind: ValueFacts,
    value_name: Seq<char>,
    help: Seq<char>,
) -> ArgFacts {
    ArgFacts { long: None, global: false, kind, ..single(id, seq![], value_name, help) }
}

/// The names of the sandboxes.
pub open spec fn sandbox_names() -> Seq<Seq<char>> {
    seq!["default"@, "read-only"@, "workspace-write"@, "danger-full-access"@]
}

/// The names of the verbosities.
pub open spec fn verbosity_names() -> Seq<Seq<char>> {
    seq!["minimal"@, "simple"@]
}

/// The `--codex-bin` argument, where `env` is what `CODEX_BIN` holds.
pub open spec fn codex_bin_facts(env: Seq<char>) -> ArgFacts {
    ArgFacts {
        long_help: Some(cli_help::codex_bin_long(env)),
        ..single("codex_bin"@, "codex-bin"@, "CODEX_BIN"@, cli_help::codex_bin_short(env))
    }
}

/// The `--sandbox` argument.
pub open spec fn sandbox_facts() -> ArgFacts {
    ArgFacts {
        kind: ValueFacts::Choice(sandbox_names()),
        long_help: Some(cli_help::SANDBOX_LONG_HELP@),
        ..single("sandbox"@, "sandbox"@, "SANDBOX"@, cli_help::SANDBOX_HELP@)
    }
}

/// The `--verbosity` argument.
pub open spec fn verbosity_facts() -> ArgFacts {
    ArgFacts {
        kind: ValueFacts::Choice(verbosity_names()),
        global: false,
        ..single("verbosity"@, "verbosity"@, "VERBOSITY"@, cli_help::VERBOSITY_HELP@)
    }
}

/// The arguments that stand anywhere on the command line, where `env` is what `CODEX_BIN` holds.
pub open spec fn root_args(env: Seq<char>) -> Seq<ArgFacts> {
    seq![
        codex_bin_facts(env),
        count(
            "rounds"@,
            "rounds"@,
            "ROUNDS"@,
            cli_help::ROUNDS_HELP@,
            cli_help::ROUNDS_LONG_HELP@,
        ),
        count(
            "strict_rounds"@,
            "strict-rounds"@,
            "STRICT_ROUNDS"@,
            cli_help::STRICT_ROUNDS_HELP@,
            cli_help::STRICT_ROUNDS_LONG_HELP@,
        ),
        sandbox_facts(),
        switch(
            "dangerously_bypass_approvals_and_sandbox"@,
            "dangerously-bypass-approvals-and-sandbox"@,
            Some("yolo"@),
            true,
            cli_help::BYPASS_HELP@,
            Some(cli_help::BYPASS_LONG_HELP@),
        ),
        list("config_overrides"@, "config"@, "CONFIG"@, cli_help::CONFIG_HELP@),
        list("enable_features"@, "enable"@, "FEATURE"@, cli_help::ENABLE_HELP@),
        list("disable_features"@, "disable"@, "FEATURE"@, cli_help::DISABLE_HELP@),
        single("model"@, "model"@, "MODEL"@, cli_help::MODEL_HELP@),
        single("profile"@, "profile"@, "PROFILE"@, cli_help::PROFILE_HELP@),
        switch("web_search"@, "search"@, None, true, cli_help::SEARCH_HELP@, None),
        switch(
            "xmodel"@,
            "xmodel"@,
            None,
            true,
            cli_help::XMODEL_HELP@,
            Some(cli_help::XMODEL_LONG_HELP@),
        ),
    ]
}

/// The command itself, where `env` is what `CODEX_BIN` holds.
pub open spec fn root_level(version: Seq<char>, env: Seq<char>) -> LevelFacts {
    LevelFacts {
        name: "codex-potter"@,
        version: Some(version),
        about: cli_help::ROOT_ABOUT@,
        long_about: None,
        args: root_args(env),
    }
}

/// The subcommands.
pub open spec fn subcommand_levels() -> Seq<LevelFacts> {
    seq![
        LevelFacts {
            name: "resume"@,
            version: None,
            about: cli_help::RESUME_ABOUT@,
            long_about: None,
            args: seq![
                positional(
                    "project_path"@,
                    ValueFacts::Path,
                    "PROJECT_PATH"@,
                    cli_help::PROJECT_PATH_HELP@,
                ),
            ],
        },
        LevelFacts {
            name: "exec"@,
            version: None,
            about: cli_help::EXEC_ABOUT@,
            long_about: None,
            args: seq![
                positional("prompt"@, ValueFacts::Text, "PROMPT"@, cli_help::PROMPT_HELP@),
                switch("json"@, "json"@, None, false, cli_help::JSON_HELP@, None),
                verbosity_facts(),
            ],
        },
        LevelFacts {
            name: "app-server"@,
            version: None,
            about: cli_help::APP_SERVER_ABOUT@,
            long_about: Some(cli_help::APP_SERVER_LONG_ABOUT@),
            args: seq![],
        },
    ]
}

/// The command and its subcommands, where `env` is what `CODEX_BIN` holds.
pub open spec fn all_levels(version: Seq<char>, env: Seq<char>) -> Seq<LevelFacts> {
    seq![root_level(version, env)] + subcommand_levels()
}

/// What `CODEX_BIN` holds: nothing where it is not set.
pub open spec fn env_text(codex_bin_env: Option<String>) -> Seq<char> {
    match codex_bin_env {
        Some(s) => s@,
        None => seq![],
    }
}

/// A command of `clap`.
#[verifier::external_type_specification]
#[verifier::external_body]
pub struct ExCommand(clap::Command);

/// Why `clap` did not split up some arguments: what it prints, where, and the exit code that goes
/// with it.
#[derive(Debug)]
pub struct ArgsRefusal {
    pub message: String,
    pub use_stderr: bool,
    pub exit_code: i32,
}

/// What a command of `clap` holds: its own name, version and arguments, and after that those of its
/// subcommands, each in the order in which it was added.
pub uninterp spec fn command_levels(command: clap::Command) -> Seq<LevelFacts>;

/// How `clap` splits up some arguments, from what the command and its subcommands hold: the values
/// of the command's arguments, and those of the arguments of every subcommand; nothing where the
/// arguments are refused, or ask for help or the version.
pub uninterp spec fn clap_values(levels: Seq<LevelFacts>, argv: Seq<Seq<char>>) -> Option<
    (Seq<Seq<Seq<char>>>, Seq<Option<Seq<Seq<Seq<char>>>>>),
>;

/// Whether what `clap` says of some arguments that it refuses goes to standard error: what it says
/// of those that ask for help or the version does not.
pub uninterp spec fn clap_uses_stderr(levels: Seq<LevelFacts>, argv: Seq<Seq<char>>) -> bool;

/// What `clap` says of some arguments that it refuses, or that ask for help or the version.
pub uninterp spec fn clap_message(levels: Seq<LevelFacts>, argv: Seq<Seq<char>>) -> Seq<char>;

/// The name of the program, where there is one, is a path that means the same everywhere.
pub open spec fn has_portable_name(argv: Seq<Seq<char>>) -> bool {
    argv.len() > 0 ==> paths::is_portable(argv[0])
}

/// The answer to some arguments that are refused, or that ask for help or the version.
pub open spec fn is_refusal(
    refusal: ArgsRefusal,
    levels: Seq<LevelFacts>,
    argv: Seq<Seq<char>>,
) -> bool {
    &&& refusal.use_stderr == clap_uses_stderr(levels, argv)
    &&& refusal.exit_code == if refusal.use_stderr {
        2i32
    } else {
        0i32
    }
    &&& has_portable_name(argv) ==> refusal.message@ == clap_message(levels, argv)
}

/// `clap::Command::new`, with the version and what the help says: a command without arguments and
/// subcommands.
#[verifier::external_body]
fn new_command(level: &LevelSpec) -> (r: clap::Command)
    ensures
        command_levels(r) == seq![LevelFacts { args: seq![], ..level@ }],
{
    let command = clap::Command::new(level.name).version(level.version);
    command.about(level.about).long_about(level.long_about)
}

/// `clap::Command::arg`, on an argument that is built from the table: it is added after the
/// command's other arguments. Each kind of value has a value parser of its own: none for a text,
/// that of `NonZeroUsize` for a number, and those of `clap` for a path and for some choices.
#[verifier::external_body]
fn add_arg(command: clap::Command, a: &ArgSpec) -> (r: clap::Command)
    requires
        command_levels(command).len() > 0,
    ensures
        command_levels(r) == command_levels(command).update(
            0,
            LevelFacts {
                args: command_levels(command)[0].args.push(a@),
                ..command_levels(command)[0]
            },
        ),
{
    let action = a.repeatable.then_some(clap::ArgAction::Append);
    let parser = match &a.kind {
        ValueKind::Text => None,
        ValueKind::Count => Some(ValueParser::new(str::parse::<NonZeroUsize>)),
        ValueKind::Path => Some(ValueParser::path_buf()),
        ValueKind::Choice(names) => Some(ValueParser::from(names.clone())),
    };
    let arg = clap::Arg::new(a.id).long(a.long).alias(a.alias).action(action).value_parser(parser);
    let arg = arg.num_args(a.values).global(a.global).value_name(a.value_name);
    let long_help = a.long_help.clone().map(StyledStr::from);
    command.arg(arg.help(a.help.clone()).long_help(Resettable::from(long_help)))
}

/// `clap::Command::subcommand`: the subcommand is added after the command's other subcommands.
#[verifier::external_body]
fn add_subcommand(command: clap::Command, subcommand: clap::Command) -> (r: clap::Command)
    requires
        command_levels(command).len() > 0,
        command_levels(subcommand).len() == 1,
    ensures
        command_levels(r) == command_levels(command).push(command_levels(subcommand)[0]),
{
    command.subcommand(subcommand)
}

/// `clap::Command::try_get_matches_from`, with the raw values of every argument read from the
/// matches, in the order of the table; and `clap::Error`'s text, `use_stderr` and `exit_code` for
/// arguments that are refused, or that ask for help or the version. That values, stream and text are
/// functions of what the command holds and of the arguments is stated, and that the exit code is 2
/// for what goes to standard error and 0 for the rest; how `clap` splits the arguments up and words
/// its text is not. The text names the program by the last component of its path: of a path whose
/// components depend on the platform nothing is stated of the text.
#[verifier::external_body]
fn split_args(command: clap::Command, spec: &CommandSpec, argv: &Vec<String>) -> (r: Result<
    ParsedArgs,
    ArgsRefusal,
>)
    requires
        spec.root@.version is Some,
        exists|env: Seq<char>| spec.root@ == #[trigger] root_level(spec.root@.version->0, env),
        level_views(spec.subcommands@) == subcommand_levels(),
        command_levels(command) == seq![spec.root@] + subcommand_levels(),
    ensures
        clap_values(command_levels(command), text::texts(argv@)) == (match r {
            Ok(p) => Some((values_view(p.root), subcommands_view(p.subcommands@))),
            Err(_) => None,
        }),
        match r {
            Ok(_) => true,
            Err(refusal) => {
                let levels = command_levels(command);
                let args = text::texts(argv@);
                &&& refusal.use_stderr == clap_uses_stderr(levels, args)
                &&& refusal.exit_code == if refusal.use_stderr {
                    2i32
                } else {
                    0i32
                }
                &&& has_portable_name(args) ==> refusal.message@ == clap_message(levels, args)
            },
        },
{
    let read = |l: &LevelSpec, m: &clap::ArgMatches| -> Vec<Vec<String>> {
        let raw = |a: &ArgSpec| m.get_raw(a.id).into_iter().flatten().map(|v| v.to_string_lossy().into_owned()).collect();
        l.args.iter().map(raw).collect()
    };
    let matches = command.try_get_matches_from(argv).map_err(|e| ArgsRefusal {
        message: e.to_string(), use_stderr: e.use_stderr(), exit_code: e.exit_code()
    })?;
    let sub = |l: &LevelSpec| matches.subcommand_matches(l.name).map(|m| read(l, m));
    Ok(ParsedArgs { root: read(&spec.root, &matches), subcommands: spec.subcommands.iter().map(sub).collect() })
}

/// Build a command without subcommands from its table.
fn build_level(level: &LevelSpec) -> (r: clap::Command)
    ensures
        command_levels(r) == seq![level@],
{
    let mut command = new_command(level);
    let ghost all = level@.args;
    let mut i: usize = 0;
    assert(command_levels(command)[0].args =~= all.take(0));
    while i < level.args.len()
        invariant
            i <= level.args.len(),
            all == level@.args,
            command_levels(command) == seq![
                LevelFacts { args: all.take(i as int), ..level@ },
            ],
        decreases level.args.len() - i,
    {
        command = add_arg(command, &level.args[i]);
        assert(all.take(i as int).push(all[i as int]) =~= all.take(i + 1));
        assert(command_levels(command) =~= seq![
            LevelFacts { args: all.take(i + 1), ..level@ },
        ]);
        i = i + 1;
    }
    assert(all.take(all.len() as int) =~= all);
    command
}

/// Build the command from its tables.
fn build_command(spec: &CommandSpec) -> (r: clap::Command)
    ensures
        command_levels(r) == seq![spec.root@] + level_views(spec.subcommands@),
{
    let mut command = build_level(&spec.root);
    let ghost all = level_views(spec.subcommands@);
    let mut i: usize = 0;
    assert(command_levels(command) =~= seq![spec.root@] + all.take(0));
    while i < spec.subcommands.len()
        invariant
            i <= spec.subcommands.len(),
            all == level_views(spec.subcommands@),
            command_levels(command) == seq![spec.root@] + all.take(i as int),
        decreases spec.subcommands.len() - i,
    {
        let subcommand = build_level(&spec.subcommands[i]);
        command = add_subcommand(command, subcommand);
        assert(command_levels(command) =~= seq![spec.root@] + all.take(i + 1));
        i = i + 1;
    }
    assert(all.take(all.len() as int) =~= all);
    command
}

/// A text that may be given at most once.
fn single_arg(
    id: &'static str,
    long: &'static str,
    value_name: &'static str,
    help: &'static str,
) -> (r: ArgSpec)
    ensures
        r@ == single(id@, long@, value_name@, help@),
{
    ArgSpec {
        id,
        long: Some(long),
        alias: None,
        values: 1,
        repeatable: false,
        global: true,
        kind: ValueKind::Text,
        value_name: Some(value_name),
        help: help.to_owned(),
        long_help: None,
    }
}

/// A text that may be given any number of times.
fn list_arg(
    id: &'static str,
    long: &'static str,
    value_name: &'static str,
    help: &'static str,
) -> (r: ArgSpec)
    ensures
        r@ == list(id@, long@, value_name@, help@),
{
    ArgSpec { repeatable: true, ..single_arg(id, long, value_name, help) }
}

/// A number, at least one.
fn count_arg(
    id: &'static str,
    long: &'static str,
    value_name: &'static str,
    help: &'static str,
    long_help: &'static str,
) -> (r: ArgSpec)
    ensures
        r@ == count(id@, long@, value_name@, help@, long_help@),
{
    ArgSpec {
        kind: ValueKind::Count,
        long_help: Some(long_help.to_owned()),
        ..single_arg(id, long, value_name, help)
    }
}

/// A switch.
fn switch_arg(
    id: &'static str,
    long: &'static str,
    alias: Option<&'static str>,
    global: bool,
    help: &'static str,
    long_help: Option<&'static str>,
) -> (r: ArgSpec)
    ensures
        r@ == switch(id@, long@, opt_literal(alias), global, help@, opt_literal(long_help)),
{
    let long_help = match long_help {
        Some(s) => Some(s.to_owned()),
        None => None,
    };
    ArgSpec {
        alias,
        values: 0,
        global,
        value_name: None,
        long_help,
        ..single_arg(id, long, "", help)
    }
}

/// A value that is known by its place.
fn positional_arg(
    id: &'static str,
    kind: ValueKind,
    value_name: &'static str,
    help: &'static str,
) -> (r: ArgSpec)
    ensures
        r@ == positional(id@, kind@, value_name@, help@),
{
    ArgSpec { long: None, global: false, kind, ..single_arg(id, "", value_name, help) }
}

/// The `--codex-bin` argument, where `env` is what `CODEX_BIN` holds.
fn codex_bin_arg(env: &str) -> (r: ArgSpec)
    ensures
        r@ == codex_bin_facts(env@),
{
    let (help, long_help) = cli_help::codex_bin_help(env);
    ArgSpec {
        help,
        long_help: Some(long_help),
        ..single_arg("codex_bin", "codex-bin", "CODEX_BIN", "")
    }
}

/// The `--sandbox` argument.
fn sandbox_arg() -> (r: ArgSpec)
    ensures
        r@ == sandbox_facts(),
{
    let names = vec!["default", "read-only", "workspace-write", "danger-full-access"];
    assert(literals(names@) =~= sandbox_names());
    ArgSpec {
        kind: ValueKind::Choice(names),
        long_help: Some(cli_help::SANDBOX_LONG_HELP.to_owned()),
        ..single_arg("sandbox", "sandbox", "SANDBOX", cli_help::SANDBOX_HELP)
    }
}

/// The `--verbosity` argument.
fn verbosity_arg() -> (r: ArgSpec)
    ensures
        r@ == verbosity_facts(),
{
    let names = vec!["minimal", "simple"];
    assert(literals(names@) =~= verbosity_names());
    ArgSpec {
        kind: ValueKind::Choice(names),
        global: false,
        ..single_arg("verbosity", "verbosity", "VERBOSITY", cli_help::VERBOSITY_HELP)
    }
}

/// The table of the command itself, where `env` is what `CODEX_BIN` holds.
fn root_spec(version: &'static str, env: &str) -> (r: LevelSpec)
    ensures
        r@ == root_level(version@, env@),
{
    let args = vec![
        codex_bin_arg(env),
        count_arg(
            "rounds",
            "rounds",
            "ROUNDS",
            cli_help::ROUNDS_HELP,
            cli_help::ROUNDS_LONG_HELP,
        ),
        count_arg(
            "strict_rounds",
            "strict-rounds",
            "STRICT_ROUNDS",
            cli_help::STRICT_ROUNDS_HELP,
            cli_help::STRICT_ROUNDS_LONG_HELP,
        ),
        sandbox_arg(),
        switch_arg(
            "dangerously_bypass_approvals_and_sandbox",
            "dangerously-bypass-approvals-and-sandbox",
            Some("yolo"),
            true,
            cli_help::BYPASS_HELP,
            Some(cli_help::BYPASS_LONG_HELP),
        ),
        list_arg("config_overrides", "config", "CONFIG", cli_help::CONFIG_HELP),
        list_arg("enable_features", "enable", "FEATURE", cli_help::ENABLE_HELP),
        list_arg("disable_features", "disable", "FEATURE", cli_help::DISABLE_HELP),
        single_arg("model", "model", "MODEL", cli_help::MODEL_HELP),
        single_arg("profile", "profile", "PROFILE", cli_help::PROFILE_HELP),
        switch_arg("web_search", "search", None, true, cli_help::SEARCH_HELP, None),
        switch_arg(
            "xmodel",
            "xmodel",
            None,
            true,
            cli_help::XMODEL_HELP,
            Some(cli_help::XMODEL_LONG_HELP),
        ),
    ];
    let r = LevelSpec {
        name: "codex-potter",
        version: Some(version),
        about: cli_help::ROOT_ABOUT,
        long_about: None,
        args,
    };
    assert(r@.args =~= root_args(env@));
    r
}

/// The tables of the subcommands.
fn subcommand_specs() -> (r: Vec<LevelSpec>)
    ensures
        level_views(r@) == subcommand_levels(),
{
    let resume = LevelSpec {
        name: "resume",
        version: None,
        about: cli_help::RESUME_ABOUT,
        long_about: None,
        args: vec![
            positional_arg(
                "project_path",
                ValueKind::Path,
                "PROJECT_PATH",
                cli_help::PROJECT_PATH_HELP,
            ),
        ],
    };
    let exec = LevelSpec {
        name: "exec",
        version: None,
        about: cli_help::EXEC_ABOUT,
        long_about: None,
        args: vec![
            positional_arg("prompt", ValueKind::Text, "PROMPT", cli_help::PROMPT_HELP),
            switch_arg("json", "json", None, false, cli_help::JSON_HELP, None),
            verbosity_arg(),
        ],
    };
    let app_server = LevelSpec {
        name: "app-server",
        version: None,
        about: cli_help::APP_SERVER_ABOUT,
        long_about: Some(cli_help::APP_SERVER_LONG_ABOUT),
        args: Vec::new(),
    };
    proof {
        let levels = subcommand_levels();
        assert(resume@.args =~= levels[0].args);
        assert(exec@.args =~= levels[1].args);
        assert(app_server@.args =~= levels[2].args);
    }
    let r = vec![resume, exec, app_server];
    assert(level_views(r@) =~= subcommand_levels());
    r
}

/// A decimal digit.
pub open spec fn is_digit(c: char) -> bool {
    '0' <= c <= '9'
}

/// The number that some decimal digits stand for.
pub open spec fn digits_value(s: Seq<char>) -> nat
    decreases s.len(),
{
    if s.len() == 0 {
        0
    } else {
        10 * digits_value(s.drop_last()) + (s.last() as u32 - 48) as nat
    }
}

/// Nothing but decimal digits, and at least one.
pub open spec fn all_digits(s: Seq<char>) -> bool {
    s.len() > 0 && forall|i: int| 0 <= i < s.len() ==> is_digit(#[trigger] s[i])
}

/// A text without a plus sign at its beginning.
pub open spec fn without_plus(s: Seq<char>) -> Seq<char> {
    if s.len() > 0 && s[0] == '+' {
        s.skip(1)
    } else {
        s
    }
}

/// The number that a text stands for: decimal digits, and a plus sign before them or none.
pub open spec fn number(s: Seq<char>) -> Option<nat> {
    if all_digits(without_plus(s)) {
        Some(digits_value(without_plus(s)))
    } else {
        None
    }
}

/// The number of rounds that a text stands for: at least one, and not more than can be counted.
pub open spec fn rounds_value(s: Seq<char>) -> Option<nat> {
    match number(s) {
        Some(n) => if 1 <= n <= usize::MAX {
            Some(n)
        } else {
            None
        },
        None => None,
    }
}

proof fn lemma_digits_value_grows(s: Seq<char>, i: int)
    requires
        0 <= i <= s.len(),
        forall|j: int| 0 <= j < s.len() ==> is_digit(#[trigger] s[j]),
    ensures
        digits_value(s.take(i)) <= digits_value(s),
    decreases s.len() - i,
{
    if i < s.len() {
        assert(s.take(i + 1).drop_last() =~= s.take(i));
        assert(is_digit(s[i]));
        lemma_digits_value_grows(s, i + 1);
    } else {
        assert(s.take(i) =~= s);
    }
}

/// Read a number of rounds.
pub fn parse_rounds(s: &str) -> (r: Option<Rounds>)
    ensures
        match r {
            Some(n) => rounds_value(s@) == Some(n@),
            None => rounds_value(s@) is None,
        },
{
    let chars = text::chars_of(s);
    let start: usize = if chars.len() > 0 && chars[0] == '+' {
        1
    } else {
        0
    };
    let digits = &chars.as_slice()[start..chars.len()];
    proof {
        assert(digits@ =~= without_plus(s@));
    }
    if digits.len() == 0 {
        return None;
    }
    let mut k: usize = 0;
    while k < digits.len()
        invariant
            k <= digits.len(),
            digits@ == without_plus(s@),
            forall|j: int| 0 <= j < k ==> is_digit(#[trigger] digits@[j]),
        decreases digits.len() - k,
    {
        let c = digits[k];
        if !('0' <= c && c <= '9') {
            assert(!is_digit(digits@[k as int]));
            return None;
        }
        k = k + 1;
    }
    let mut value: usize = 0;
    let mut i: usize = 0;
    assert(digits@.take(0) =~= Seq::<char>::empty());
    while i < digits.len()
        invariant
            i <= digits.len(),
            digits@.len() > 0,
            digits@ == without_plus(s@),
            forall|j: int| 0 <= j < digits@.len() ==> is_digit(#[trigger] digits@[j]),
            value == digits_value(digits@.take(i as int)),
        decreases digits.len() - i,
    {
        let c = digits[i];
        proof {
            assert(digits@.take(i + 1).drop_last() =~= digits@.take(i as int));
            assert(is_digit(digits@[i as int]));
            lemma_digits_value_grows(digits@, i + 1);
        }
        let d: usize = (c as u32 - 48) as usize;
        match value.checked_mul(10) {
            Some(tens) => match tens.checked_add(d) {
                Some(n) => {
                    value = n;
                },
                None => {
                    return None;
                },
            },
            None => {
                return None;
            },
        }
        i = i + 1;
    }
    assert(digits@.take(digits@.len() as int) =~= digits@);
    Rounds::new(value)
}

/// The sandbox that a text names.
pub open spec fn sandbox_value(s: Seq<char>) -> Option<CliSandbox> {
    if s == "default"@ {
        Some(CliSandbox::Default)
    } else if s == "read-only"@ {
        Some(CliSandbox::ReadOnly)
    } else if s == "workspace-write"@ {
        Some(CliSandbox::WorkspaceWrite)
    } else if s == "danger-full-access"@ {
        Some(CliSandbox::DangerFullAccess)
    } else {
        None
    }
}

/// Read the name of a sandbox.
pub fn parse_sandbox(s: &str) -> (r: Option<CliSandbox>)
    ensures
        r == sandbox_value(s@),
{
    if text::same_str(s, "default") {
        Some(CliSandbox::Default)
    } else if text::same_str(s, "read-only") {
        Some(CliSandbox::ReadOnly)
    } else if text::same_str(s, "workspace-write") {
        Some(CliSandbox::WorkspaceWrite)
    } else if text::same_str(s, "danger-full-access") {
        Some(CliSandbox::DangerFullAccess)
    } else {
        None
    }
}

/// The verbosity that a text names.
pub open spec fn verbosity_value(s: Seq<char>) -> Option<CliVerbosity> {
    if s == "minimal"@ {
        Some(CliVerbosity::Minimal)
    } else if s == "simple"@ {
        Some(CliVerbosity::Simple)
    } else {
        None
    }
}

/// Read the name of a verbosity.
pub fn parse_verbosity(s: &str) -> (r: Option<CliVerbosity>)
    ensures
        r == verbosity_value(s@),
{
    if text::same_str(s, "minimal") {
        Some(CliVerbosity::Minimal)
    } else if text::same_str(s, "simple") {
        Some(CliVerbosity::Simple)
    } else {
        None
    }
}

/// Why a command line was refused.
#[derive(Debug)]
pub enum CliError {
    /// The arguments are not those of this program, or ask for help or the version.
    Refused(ArgsRefusal),
    /// A value means nothing.
    InvalidValue { option: &'static str, value: String },
}

impl CliError {
    /// The message shown to the user.
    pub fn message(&self) -> (r: String)
        ensures
            r@ == (match *self {
                CliError::Refused(refusal) => refusal.message@,
                CliError::InvalidValue { option, value } => "error: invalid value '"@ + value@
                    + "' for '"@ + option@ + "'"@,
            }),
    {
        match self {
            CliError::Refused(refusal) => refusal.message.clone(),
            CliError::InvalidValue { option, value } => {
                let mut out = "error: invalid value '".to_owned();
                out.append(value.as_str());
                out.append("' for '");
                out.append(option);
                out.append("'");
                out
            },
        }
    }
}

/// The values of argument `i`; none where there is no such argument.
pub open spec fn values_at(level: Seq<Seq<Seq<char>>>, i: int) -> Seq<Seq<char>> {
    if 0 <= i < level.len() {
        level[i]
    } else {
        seq![]
    }
}

/// The first value of argument `i`.
pub open spec fn value_at(level: Seq<Seq<Seq<char>>>, i: int) -> Option<Seq<char>> {
    if values_at(level, i).len() > 0 {
        Some(values_at(level, i)[0])
    } else {
        None
    }
}

/// Whether switch `i` is on.
pub open spec fn switched_on(level: Seq<Seq<Seq<char>>>, i: int) -> bool {
    value_at(level, i) == Some("true"@)
}

/// The mathematical counterpart of [`CliCommand`].
pub enum CommandFacts {
    Resume { project_path: Option<Seq<char>> },
    Exec { prompt: Option<Seq<char>>, json: bool, verbosity: Option<CliVerbosity> },
    AppServer,
}

/// The mathematical counterpart of [`Cli`].
pub struct CliFacts {
    pub codex_bin: Seq<char>,
    pub rounds: nat,
    pub strict_rounds: Option<nat>,
    pub sandbox: CliSandbox,
    pub dangerously_bypass_approvals_and_sandbox: bool,
    pub config_overrides: Seq<Seq<char>>,
    pub enable_features: Seq<Seq<char>>,
    pub disable_features: Seq<Seq<char>>,
    pub model: Option<Seq<char>>,
    pub profile: Option<Seq<char>>,
    pub web_search: bool,
    pub xmodel: bool,
    pub command: Option<CommandFacts>,
}

impl View for CliCommand {
    type V = CommandFacts;

    open spec fn view(&self) -> CommandFacts {
        match *self {
            CliCommand::Resume { project_path } => CommandFacts::Resume {
                project_path: text::opt_text(project_path),
            },
            CliCommand::Exec { prompt, json, verbosity } => CommandFacts::Exec {
                prompt: text::opt_text(prompt),
                json,
                verbosity,
            },
            CliCommand::AppServer => CommandFacts::AppServer,
        }
    }
}

impl View for Cli {
    type V = CliFacts;

    open spec fn view(&self) -> CliFacts {
        CliFacts {
            codex_bin: self.codex_bin@,
            rounds: self.rounds@,
            strict_rounds: match self.strict_rounds {
                Some(n) => Some(n@),
                None => None,
            },
            sandbox: self.sandbox,
            dangerously_bypass_approvals_and_sandbox:
                self.dangerously_bypass_approvals_and_sandbox,
            config_overrides: text::texts(self.upstream_cli_args.config_overrides@),
            enable_features: text::texts(self.upstream_cli_args.enable_features@),
            disable_features: text::texts(self.upstream_cli_args.disable_features@),
            model: text::opt_text(self.upstream_cli_args.model),
            profile: text::opt_text(self.upstream_cli_args.profile),
            web_search: self.upstream_cli_args.web_search,
            xmodel: self.xmodel,
            command: match self.command {
                Some(c) => Some(c@),
                None => None,
            },
        }
    }
}

/// The values of subcommand `i`, if it was given.
pub open spec fn subcommand_at(subs: Seq<Option<Seq<Seq<Seq<char>>>>>, i: int) -> Option<
    Seq<Seq<Seq<char>>>,
> {
    if 0 <= i < subs.len() {
        subs[i]
    } else {
        None
    }
}

/// What the program is asked to do. Nothing but the verbosity of `exec` can be wrong: `Err` holds
/// the value in question.
pub open spec fn command_of(subs: Seq<Option<Seq<Seq<Seq<char>>>>>) -> Result<
    Option<CommandFacts>,
    Seq<char>,
> {
    match subcommand_at(subs, 0) {
        Some(resume) => Ok(
            Some(CommandFacts::Resume { project_path: value_at(resume, 0) }),
        ),
        None => match subcommand_at(subs, 1) {
            Some(exec) => match value_at(exec, 2) {
                None => Ok(
                    Some(
                        CommandFacts::Exec {
                            prompt: value_at(exec, 0),
                            json: switched_on(exec, 1),
                            verbosity: None,
                        },
                    ),
                ),
                Some(v) => match verbosity_value(v) {
                    Some(verbosity) => Ok(
                        Some(
                            CommandFacts::Exec {
                                prompt: value_at(exec, 0),
                                json: switched_on(exec, 1),
                                verbosity: Some(verbosity),
                            },
                        ),
                    ),
                    None => Err(v),
                },
            },
            None => Ok(
                if subcommand_at(subs, 2) is Some {
                    Some(CommandFacts::AppServer)
                } else {
                    None
                },
            ),
        },
    }
}

/// An option, and a value of it that means nothing.
pub open spec fn invalid(option: Seq<char>, value: Seq<char>) -> Result<
    CliFacts,
    (Seq<char>, Seq<char>),
> {
    Err((option, value))
}

/// The command line, from its values and the `CODEX_BIN` of the environment. `Err` holds the option
/// with a value that means nothing, and the value.
pub open spec fn cli_of(
    root: Seq<Seq<Seq<char>>>,
    subs: Seq<Option<Seq<Seq<Seq<char>>>>>,
    codex_bin_env: Option<Seq<char>>,
) -> Result<CliFacts, (Seq<char>, Seq<char>)> {
    let rounds_text = value_at(root, 1);
    let rounds = match rounds_text {
        Some(s) => rounds_value(s),
        None => Some(10nat),
    };
    let strict_text = value_at(root, 2);
    let strict = match strict_text {
        Some(s) => rounds_value(s),
        None => None,
    };
    let sandbox_text = value_at(root, 3);
    let sandbox = match sandbox_text {
        Some(s) => sandbox_value(s),
        None => Some(CliSandbox::Default),
    };
    if rounds is None {
        invalid("--rounds <ROUNDS>"@, rounds_text->0)
    } else if strict_text is Some && strict is None {
        invalid("--strict-rounds <STRICT_ROUNDS>"@, strict_text->0)
    } else if sandbox is None {
        invalid("--sandbox <SANDBOX>"@, sandbox_text->0)
    } else {
        match command_of(subs) {
            Err(v) => invalid("--verbosity <VERBOSITY>"@, v),
            Ok(command) => Ok(
                CliFacts {
                    codex_bin: match value_at(root, 0) {
                        Some(s) => s,
                        None => match codex_bin_env {
                            Some(s) => s,
                            None => "codex"@,
                        },
                    },
                    rounds: rounds->0,
                    strict_rounds: strict,
                    sandbox: sandbox->0,
                    dangerously_bypass_approvals_and_sandbox: switched_on(root, 4),
                    config_overrides: values_at(root, 5),
                    enable_features: values_at(root, 6),
                    disable_features: values_at(root, 7),
                    model: value_at(root, 8),
                    profile: value_at(root, 9),
                    web_search: switched_on(root, 10),
                    xmodel: switched_on(root, 11),
                    command,
                },
            ),
        }
    }
}

/// [`values_at`] on lists.
fn values_of(level: &Vec<Vec<String>>, i: usize) -> (r: Vec<String>)
    ensures
        text::texts(r@) == values_at(values_view(*level), i as int),
{
    let mut r: Vec<String> = Vec::new();
    if i < level.len() {
        let ghost all = text::texts(level@[i as int]@);
        let mut k: usize = 0;
        assert(text::texts(r@) =~= all.take(0));
        while k < level[i].len()
            invariant
                i < level.len(),
                k <= level@[i as int].len(),
                all == text::texts(level@[i as int]@),
                text::texts(r@) == all.take(k as int),
            decreases level@[i as int].len() - k,
        {
            text::push_text(&mut r, level[i][k].as_str());
            assert(text::texts(r@) =~= all.take(k + 1));
            k = k + 1;
        }
        assert(all.take(all.len() as int) =~= all);
    } else {
        assert(text::texts(r@) =~= seq![]);
    }
    r
}

/// [`value_at`] on lists.
fn value_of(level: &Vec<Vec<String>>, i: usize) -> (r: Option<String>)
    ensures
        text::opt_text(r) == value_at(values_view(*level), i as int),
{
    if i < level.len() && level[i].len() > 0 {
        Some(level[i][0].clone())
    } else {
        None
    }
}

/// [`switched_on`] on lists.
fn switch_of(level: &Vec<Vec<String>>, i: usize) -> (r: bool)
    ensures
        r == switched_on(values_view(*level), i as int),
{
    match value_of(level, i) {
        Some(s) => text::same_str(s.as_str(), "true"),
        None => false,
    }
}

/// [`subcommand_at`] on lists.
fn subcommand_of(subs: &Vec<Option<Vec<Vec<String>>>>, i: usize) -> (r: Option<&Vec<Vec<String>>>)
    ensures
        match r {
            Some(level) => subcommand_at(subcommands_view(subs@), i as int) == Some(
                values_view(*level),
            ),
            None => subcommand_at(subcommands_view(subs@), i as int) is None,
        },
{
    if i < subs.len() {
        match &subs[i] {
            Some(level) => Some(level),
            None => None,
        }
    } else {
        None
    }
}

/// Read what the program is asked to do.
fn parse_command(subs: &Vec<Option<Vec<Vec<String>>>>) -> (r: Result<Option<CliCommand>, String>)
    ensures
        match r {
            Ok(command) => command_of(subcommands_view(subs@)) == Ok::<
                Option<CommandFacts>,
                Seq<char>,
            >(
                match command {
                    Some(c) => Some(c@),
                    None => None,
                },
            ),
            Err(v) => command_of(subcommands_view(subs@)) == Err::<Option<CommandFacts>, Seq<char>>(
                v@,
            ),
        },
{
    match subcommand_of(subs, 0) {
        Some(resume) => {
            return Ok(Some(CliCommand::Resume { project_path: value_of(resume, 0) }));
        },
        None => {},
    }
    match subcommand_of(subs, 1) {
        Some(exec) => {
            let prompt = value_of(exec, 0);
            let json = switch_of(exec, 1);
            let verbosity = match value_of(exec, 2) {
                None => None,
                Some(v) => match parse_verbosity(v.as_str()) {
                    Some(verbosity) => Some(verbosity),
                    None => {
                        return Err(v);
                    },
                },
            };
            return Ok(Some(CliCommand::Exec { prompt, json, verbosity }));
        },
        None => {},
    }
    match subcommand_of(subs, 2) {
        Some(_) => Ok(Some(CliCommand::AppServer)),
        None => Ok(None),
    }
}

/// The fault of a command line that was split up, mathematically.
pub open spec fn invalid_value(e: CliError) -> (Seq<char>, Seq<char>) {
    match e {
        CliError::InvalidValue { option, value } => (option@, value@),
        CliError::Refused(_) => (seq![], seq![]),
    }
}

impl Cli {
    /// Read the values of a command line that was split up.
    pub fn from_parsed(parsed: &ParsedArgs, codex_bin_env: Option<String>) -> (r: Result<
        Cli,
        CliError,
    >)
        ensures
            match cli_of(
                values_view(parsed.root),
                subcommands_view(parsed.subcommands@),
                text::opt_text(codex_bin_env),
            ) {
                Ok(facts) => r matches Ok(cli) && cli@ == facts,
                Err(fault) => r matches Err(e) && e is InvalidValue && invalid_value(e) == fault,
            },
    {
        let root = &parsed.root;
        let rounds = match value_of(root, 1) {
            Some(s) => match parse_rounds(s.as_str()) {
                Some(n) => n,
                None => {
                    return Err(CliError::InvalidValue { option: "--rounds <ROUNDS>", value: s });
                },
            },
            None => Rounds::default(),
        };
        let strict_rounds = match value_of(root, 2) {
            Some(s) => match parse_rounds(s.as_str()) {
                Some(n) => Some(n),
                None => {
                    return Err(
                        CliError::InvalidValue {
                            option: "--strict-rounds <STRICT_ROUNDS>",
                            value: s,
                        },
                    );
                },
            },
            None => None,
        };
        let sandbox = match value_of(root, 3) {
            Some(s) => match parse_sandbox(s.as_str()) {
                Some(sandbox) => sandbox,
                None => {
                    return Err(CliError::InvalidValue { option: "--sandbox <SANDBOX>", value: s });
                },
            },
            None => CliSandbox::Default,
        };
        let command = match parse_command(&parsed.subcommands) {
            Ok(command) => command,
            Err(value) => {
                return Err(CliError::InvalidValue { option: "--verbosity <VERBOSITY>", value });
            },
        };
        let codex_bin = match value_of(root, 0) {
            Some(s) => s,
            None => match codex_bin_env {
                Some(s) => s,
                None => "codex".to_owned(),
            },
        };
        Ok(
            Cli {
                codex_bin,
                rounds,
                strict_rounds,
                sandbox,
                dangerously_bypass_approvals_and_sandbox: switch_of(root, 4),
                upstream_cli_args: UpstreamCodexCliArgs {
                    config_overrides: values_of(root, 5),
                    enable_features: values_of(root, 6),
                    disable_features: values_of(root, 7),
                    model: value_of(root, 8),
                    profile: value_of(root, 9),
                    web_search: switch_of(root, 10),
                },
                xmodel: switch_of(root, 11),
                command,
            },
        )
    }

    /// Read a command line: the arguments, the program's name first; the version to show; and the
    /// `CODEX_BIN` of the environment. Arguments that are refused, or that ask for help or the
    /// version, get the answer of `clap`.
    pub fn parse(argv: &Vec<String>, version: &'static str, codex_bin_env: Option<String>) -> (r:
        Result<Cli, CliError>)
        ensures
            ({
                let levels = all_levels(version@, env_text(codex_bin_env));
                let argv = text::texts(argv@);
                match clap_values(levels, argv) {
                    None => match r {
                        Err(CliError::Refused(refusal)) => is_refusal(refusal, levels, argv),
                        _ => false,
                    },
                    Some((root, subs)) => match cli_of(root, subs, text::opt_text(codex_bin_env)) {
                        Ok(facts) => r matches Ok(cli) && cli@ == facts,
                        Err(fault) => r matches Err(e) && e is InvalidValue && invalid_value(e)
                            == fault,
                    },
                }
            }),
    {
        let root = match &codex_bin_env {
            Some(env) => root_spec(version, env.as_str()),
            None => {
                let empty = String::new();
                assert(empty@ =~= seq![]);
                root_spec(version, empty.as_str())
            },
        };
        let spec = CommandSpec { root, subcommands: subcommand_specs() };
        let command = build_command(&spec);
        match split_args(command, &spec, argv) {
            Ok(parsed) => Cli::from_parsed(&parsed, codex_bin_env),
            Err(refusal) => Err(CliError::Refused(refusal)),
        }
    }

    /// Read a command line, without a version or an environment.
    pub fn try_parse_from(args: &[&str]) -> (r: Result<Cli, CliError>)
        ensures
            ({
                let levels = all_levels(""@, seq![]);
                let argv = Seq::new(args@.len(), |i: int| args@[i]@);
                match clap_values(levels, argv) {
                    None => match r {
                        Err(CliError::Refused(refusal)) => is_refusal(refusal, levels, argv),
                        _ => false,
                    },
                    Some((root, subs)) => match cli_of(root, subs, None) {
                        Ok(facts) => r matches Ok(cli) && cli@ == facts,
                        Err(fault) => r matches Err(e) && e is InvalidValue && invalid_value(e)
                            == fault,
                    },
                }
            }),
    {
        let ghost all = Seq::new(args@.len(), |i: int| args@[i]@);
        let mut argv: Vec<String> = Vec::new();
        let mut i: usize = 0;
        assert(text::texts(argv@) =~= all.take(0));
        while i < args.len()
            invariant
                i <= args.len(),
                all == Seq::new(args@.len(), |k: int| args@[k]@),
                text::texts(argv@) == all.take(i as int),
            decreases args.len() - i,
        {
            text::push_text(&mut argv, args[i]);
            assert(text::texts(argv@) =~= all.take(i + 1));
            i = i + 1;
        }
        assert(all.take(all.len() as int) =~= all);
        Cli::parse(&argv, "", None)
    }
}

/// A number of rounds that is read is at least one, and zero is never read.
pub proof fn law_rounds_are_at_least_one(s: Seq<char>)
    ensures
        rounds_value(s) matches Some(n) ==> n >= 1,
        number(s) == Some(0nat) ==> rounds_value(s) is None,
{
}

/// A command is read, mathematically, as what it is, with every value that it holds in its place.
pub proof fn law_command_is_read_as_it_is(command: CliCommand)
    ensures
        match command {
            CliCommand::Resume { project_path } => {
                &&& command@ is Resume
                &&& command@->Resume_project_path == text::opt_text(project_path)
            },
            CliCommand::Exec { prompt, json, verbosity } => {
                &&& command@ is Exec
                &&& command@->Exec_prompt == text::opt_text(prompt)
                &&& command@->Exec_json == json
                &&& command@->Exec_verbosity == verbosity
            },
            CliCommand::AppServer => command@ is AppServer,
        },
{
}

/// A kind of value is read, mathematically, as what it is, with its choices.
pub proof fn law_kind_is_read_as_it_is(kind: ValueKind)
    ensures
        match kind {
            ValueKind::Text => kind@ is Text,
            ValueKind::Count => kind@ is Count,
            ValueKind::Path => kind@ is Path,
            ValueKind::Choice(names) => kind@ is Choice && kind@->Choice_0 == literals(names@),
        },
{
}

/// The command line is read, mathematically, as what it is, each setting in its place.
pub proof fn law_settings_are_read_as_they_are(cli: Cli)
    ensures
        cli@.codex_bin == cli.codex_bin@,
        cli@.rounds == cli.rounds@,
        cli.strict_rounds is None <==> cli@.strict_rounds is None,
        cli.strict_rounds matches Some(n) ==> cli@.strict_rounds == Some(n@),
        cli@.sandbox == cli.sandbox,
        cli@.dangerously_bypass_approvals_and_sandbox
            == cli.dangerously_bypass_approvals_and_sandbox,
        cli@.config_overrides == text::texts(cli.upstream_cli_args.config_overrides@),
        cli@.enable_features == text::texts(cli.upstream_cli_args.enable_features@),
        cli@.disable_features == text::texts(cli.upstream_cli_args.disable_features@),
        cli@.model == text::opt_text(cli.upstream_cli_args.model),
        cli@.profile == text::opt_text(cli.upstream_cli_args.profile),
        cli@.web_search == cli.upstream_cli_args.web_search,
        cli@.xmodel == cli.xmodel,
        cli.command is None <==> cli@.command is None,
        cli.command matches Some(c) ==> cli@.command == Some(c@),
{
}

/// An argument of the table is read, mathematically, as what it is.
pub proof fn law_argument_is_read_as_it_is(arg: ArgSpec, level: LevelSpec, i: int)
    requires
        0 <= i < level.args@.len(),
    ensures
        arg@.id == arg.id@,
        arg@.long == opt_literal(arg.long),
        arg@.alias == opt_literal(arg.alias),
        arg@.values == arg.values,
        arg@.repeatable == arg.repeatable,
        arg@.global == arg.global,
        arg@.kind == arg.kind@,
        arg@.value_name == opt_literal(arg.value_name),
        arg@.help == arg.help@,
        arg@.long_help == text::opt_text(arg.long_help),
        level@.name == level.name@,
        level@.version == opt_literal(level.version),
        level@.about == level.about@,
        level@.long_about == opt_literal(level.long_about),
        level@.args.len() == level.args@.len(),
        level@.args[i] == level.args@[i]@,
{
}

/// The values of a command line are read, mathematically, as what they are, each in its place.
pub proof fn law_values_have_their_places(
    level: Vec<Vec<String>>,
    subs: Seq<Option<Vec<Vec<String>>>>,
    i: int,
    j: int,
)
    requires
        0 <= i < level@.len(),
        0 <= j < subs.len(),
    ensures
        values_view(level).len() == level@.len(),
        values_view(level)[i] == text::texts(level@[i]@),
        subcommands_view(subs).len() == subs.len(),
        subs[j] is None <==> subcommands_view(subs)[j] is None,
        subs[j] matches Some(values) ==> subcommands_view(subs)[j] == Some(values_view(values)),
{
}

/// A text of digits is read as the number that they stand for, zeros in front and a plus sign
/// included, where it is at least one and can be counted; any other text is not read.
pub proof fn law_digits_are_read(s: Seq<char>)
    requires
        s.len() > 0,
        forall|i: int| 0 <= i < s.len() ==> '0' <= #[trigger] s[i] <= '9',
    ensures
        1 <= digits_value(s) <= usize::MAX ==> rounds_value(s) == Some(digits_value(s)),
        1 <= digits_value(s) <= usize::MAX ==> rounds_value(seq!['+'] + s) == Some(
            digits_value(s),
        ),
        digits_value(s) == 0 || digits_value(s) > usize::MAX ==> rounds_value(s) is None,
{
    assert forall|i: int| 0 <= i < s.len() implies is_digit(#[trigger] s[i]) by {}
    assert(s[0] != '+');
    assert((seq!['+'] + s).skip(1) =~= s);
}

} // verus!
