use codex_potter::cli::Cli;
use codex_potter::cli::Verbosity;
use codex_potter::main_session::MainAction;
use codex_potter::main_session::MainInput;
use codex_potter::main_session::MainSession;
use codex_potter::main_session::ProjectQueueExit;
use codex_potter::main_session::ResumeExit;
use codex_potter::main_session::ResumePickerOutcome;
use codex_potter::startup::GlobalGitignorePromptOutcome;

type Action = MainAction<String, Vec<String>>;
type Input = MainInput<String, Vec<String>>;

fn start(args: &[&str]) -> (MainSession, Action) {
    MainSession::start(Cli::try_parse_from(args).expect("parse args"))
}

fn good() -> Input {
    MainInput::Outcome(Ok(()))
}

fn bad() -> Input {
    MainInput::Outcome(Err("e".to_string()))
}

/// Runs a session over some inputs, and returns the last action.
fn last(args: &[&str], inputs: Vec<Input>) -> Action {
    let (mut session, mut action) = start(args);
    for input in inputs {
        let next = session.step(input);
        session = next.0;
        action = next.1;
    }
    action
}

fn found() -> Input {
    MainInput::CodexBin(Ok("/bin/codex".to_string()))
}

fn missing() -> Input {
    MainInput::CodexBin(Err("codex".to_string()))
}

/// The inputs that lead an interactive session to its setup questions.
fn to_setup() -> Vec<Input> {
    vec![good(), found(), good(), MainInput::UpdateSetting(None), good(), good(), MainInput::Update(Ok(None))]
}

/// The inputs that lead an interactive session to a server that is ready.
fn to_ready() -> Vec<Input> {
    let mut inputs = to_setup();
    inputs.push(MainInput::HidePrompt(Ok(Some(true))));
    inputs.push(MainInput::AsksVerbosity(false));
    inputs.push(good());
    inputs.push(good());
    inputs
}

#[test]
fn exec_json_runs_and_exits() {
    let args = ["codex-potter", "exec", "--json", "hello"];
    assert!(matches!(start(&args).1, MainAction::ResolveWorkdir));
    assert!(matches!(last(&args, vec![good()]), MainAction::ApplyDefaultGitignore));
    let MainAction::ResolveCodexBin { command } = last(&args, vec![good(), MainInput::Done]) else {
        panic!("expected the backend to be looked for");
    };
    assert_eq!(command, "codex");
    let MainAction::RunExecJson { codex_bin, prompt } =
        last(&args, vec![good(), MainInput::Done, found()])
    else {
        panic!("expected a run");
    };
    assert_eq!(codex_bin, "/bin/codex");
    assert_eq!(prompt.as_deref(), Some("hello"));
    let end = last(&args, vec![good(), MainInput::Done, found(), MainInput::ExitCode(3)]);
    assert!(matches!(end, MainAction::Exit { code: 3 }));
}

#[test]
fn exec_json_writes_preflight_failures_as_events() {
    let args = ["codex-potter", "exec", "--json"];
    let MainAction::PrintError { line } = last(&args, vec![bad()]) else {
        panic!("expected an error");
    };
    assert_eq!(line, "error: resolve current directory: e");
    let MainAction::WritePreflightError { message } = last(&args, vec![bad(), MainInput::Done])
    else {
        panic!("expected an event");
    };
    assert_eq!(message, "resolve current directory: e");
    let end = last(&args, vec![bad(), MainInput::Done, MainInput::Done]);
    assert!(matches!(end, MainAction::Exit { code: 1 }));

    let MainAction::WritePreflightError { message } =
        last(&args, vec![good(), MainInput::Done, missing(), MainInput::Done])
    else {
        panic!("expected an event");
    };
    assert_eq!(message, "Failed to find `codex` binary in PATH");
}

#[test]
fn exec_prints_preflight_failures() {
    let args = ["codex-potter", "exec"];
    assert!(matches!(last(&args, vec![bad()]), MainAction::PrintError { .. }));
    let end = last(&args, vec![bad(), MainInput::Done]);
    assert!(matches!(end, MainAction::Exit { code: 1 }));
    let MainAction::PrintStartupError { command } =
        last(&args, vec![good(), MainInput::Done, missing()])
    else {
        panic!("expected an error");
    };
    assert_eq!(command, "codex");
}

#[test]
fn exec_takes_the_verbosity_of_the_command_line_or_the_configuration() {
    let asked = ["codex-potter", "exec", "--verbosity", "simple"];
    let to_bin = || vec![good(), MainInput::Done, found()];
    assert!(matches!(
        last(&asked, to_bin()),
        MainAction::RunExecHuman { verbosity: Verbosity::Simple, .. }
    ));
    let plain = ["codex-potter", "exec"];
    assert!(matches!(last(&plain, to_bin()), MainAction::LoadVerbosity));
    let mut inputs = to_bin();
    inputs.push(MainInput::Configured(Ok(Some(Verbosity::Simple))));
    assert!(matches!(
        last(&plain, inputs),
        MainAction::RunExecHuman { verbosity: Verbosity::Simple, .. }
    ));
    let mut inputs = to_bin();
    inputs.push(MainInput::Configured(Err("e".to_string())));
    let MainAction::PrintError { line } = last(&plain, inputs) else {
        panic!("expected a warning");
    };
    assert_eq!(line, "warning: failed to load TUI verbosity: e");
    let mut inputs = to_bin();
    inputs.push(MainInput::Configured(Err("e".to_string())));
    inputs.push(MainInput::Done);
    assert!(matches!(
        last(&plain, inputs),
        MainAction::RunExecHuman { verbosity: Verbosity::Minimal, .. }
    ));
}

#[test]
fn round_budgets_are_checked_before_anything_else() {
    let MainAction::Fail { context, cause } =
        start(&["codex-potter", "app-server", "--rounds", "4294967296"]).1
    else {
        panic!("expected a failure");
    };
    assert_eq!(context, None);
    assert_eq!(cause, "round budget 4294967296 exceeds the maximum of 4294967295");
    assert!(matches!(
        start(&["codex-potter", "exec", "--rounds", "4294967296"]).1,
        MainAction::ResolveWorkdir
    ));
}

#[test]
fn app_server_runs_with_or_without_its_home() {
    let args = ["codex-potter", "app-server"];
    let to_home = || vec![good(), found(), MainInput::Done];
    assert!(matches!(last(&args, to_home()), MainAction::EnsureCompatHome));
    let mut inputs = to_home();
    inputs.push(good());
    assert!(matches!(
        last(&args, inputs),
        MainAction::RunAppServer { with_compat_home: true, .. }
    ));
    let mut inputs = to_home();
    inputs.push(bad());
    let MainAction::PrintError { line } = last(&args, inputs) else {
        panic!("expected a warning");
    };
    assert_eq!(line, "warning: failed to configure codex-compat home: e");
    let mut inputs = to_home();
    inputs.extend([bad(), MainInput::Done]);
    assert!(matches!(
        last(&args, inputs),
        MainAction::RunAppServer { with_compat_home: false, .. }
    ));
    let mut inputs = to_home();
    inputs.extend([good(), good()]);
    assert!(matches!(last(&args, inputs), MainAction::Finish));
}

#[test]
fn failures_carry_their_context() {
    let args = ["codex-potter", "resume"];
    let mut banner = vec![good(), found(), good(), MainInput::UpdateSetting(None), good()];
    banner.push(bad());
    let mut listed = to_ready();
    listed.push(MainInput::Listed(Err("e".to_string())));
    let mut resumed = to_ready();
    resumed.push(MainInput::Listed(Ok(false)));
    resumed.push(MainInput::Picked(Ok(ResumePickerOutcome::Resume("p".to_string()))));
    resumed.push(MainInput::Resumed(Err("e".to_string())));
    let mut spawned = to_ready();
    spawned.truncate(spawned.len() - 2);
    spawned.push(bad());
    let mut initialized = to_ready();
    initialized.truncate(initialized.len() - 1);
    initialized.push(bad());
    let cases = [
        (vec![bad()], "resolve current directory"),
        (banner, "resolve startup banner Codex model config"),
        (spawned, "spawn potter app-server"),
        (initialized, "initialize potter app-server"),
        (listed, "project/list via potter app-server"),
        (resumed, "resume project"),
    ];
    for (inputs, expected) in cases {
        let MainAction::Fail { context, cause } = last(&args, inputs) else {
            panic!("expected a failure: {expected}");
        };
        assert_eq!(context.as_deref(), Some(expected));
        assert_eq!(cause, "e");
    }
}

#[test]
fn updates_end_the_run() {
    let args = ["codex-potter"];
    let to_update = || {
        let mut inputs = to_setup();
        inputs.pop();
        inputs.push(MainInput::Update(Ok(Some("npm i".to_string()))));
        inputs
    };
    let MainAction::RunUpdate { command, announcement } = last(&args, to_update()) else {
        panic!("expected an update");
    };
    assert_eq!(command, "npm i");
    assert_eq!(announcement, "Updating CodexPotter via `npm i`...");
    let mut inputs = to_update();
    inputs.push(MainInput::Updated(Ok((true, "0".to_string()))));
    let MainAction::PrintLine { line } = last(&args, inputs) else {
        panic!("expected a report");
    };
    assert_eq!(line, "Update ran successfully! Please restart CodexPotter.");
    let mut inputs = to_update();
    inputs.push(MainInput::Updated(Ok((false, "exit status: 1".to_string()))));
    let MainAction::Fail { cause, .. } = last(&args, inputs) else {
        panic!("expected a failure");
    };
    assert_eq!(cause, "`npm i` failed with status exit status: 1");
}

#[test]
fn update_checks_follow_the_configuration() {
    let args = ["codex-potter"];
    for (setting, expected) in [(None, true), (Some(true), true), (Some(false), false)] {
        let inputs = vec![good(), found(), good(), MainInput::UpdateSetting(setting), good(), good()];
        assert!(matches!(
            last(&args, inputs),
            MainAction::PromptUpdate { check } if check == expected
        ));
    }
}

#[test]
fn setup_questions_are_asked_in_order() {
    let args = ["codex-potter"];
    let mut inputs = to_setup();
    inputs.push(MainInput::HidePrompt(Ok(None)));
    inputs.push(MainInput::HasEntry(Ok(false)));
    inputs.push(MainInput::AsksVerbosity(true));
    let (mut session, mut action) = start(&args);
    for input in inputs {
        let next = session.step(input);
        session = next.0;
        action = next.1;
    }
    let MainAction::PromptGitignore { step: Some(step) } = action else {
        panic!("expected a question");
    };
    assert_eq!((step.index, step.total), (1, 2));
    let (session, action) =
        session.step(MainInput::Answer(Ok(GlobalGitignorePromptOutcome::NoDontAskAgain)));
    assert!(matches!(action, MainAction::PersistHide));
    let (session, action) = session.step(bad());
    let MainAction::PrintError { line } = action else {
        panic!("expected a warning");
    };
    assert_eq!(line, "warning: failed to persist config: e");
    let (session, action) = session.step(MainInput::Done);
    let MainAction::PromptVerbosity { step: Some(step) } = action else {
        panic!("expected a question");
    };
    assert_eq!((step.index, step.total), (2, 2));
    let (session, action) = session.step(bad());
    assert!(matches!(action, MainAction::PrintError { .. }));
    let (session, action) = session.step(MainInput::Done);
    assert!(matches!(action, MainAction::ClearUi));
    let (_, action) = session.step(MainInput::Done);
    assert!(matches!(action, MainAction::Spawn { .. }));
}

#[test]
fn a_single_setup_question_has_no_number() {
    let args = ["codex-potter"];
    let mut inputs = to_setup();
    inputs.push(MainInput::HidePrompt(Ok(Some(false))));
    inputs.push(MainInput::HasEntry(Ok(false)));
    inputs.push(MainInput::AsksVerbosity(false));
    assert!(matches!(last(&args, inputs), MainAction::PromptGitignore { step: None }));
    let mut inputs = to_setup();
    inputs.push(MainInput::HidePrompt(Err("e".to_string())));
    inputs.push(MainInput::Done);
    inputs.push(MainInput::AsksVerbosity(true));
    assert!(matches!(last(&args, inputs), MainAction::PromptVerbosity { step: None }));
}

#[test]
fn projects_are_resumed_or_picked() {
    let MainAction::RunResume { project_path } =
        last(&["codex-potter", "resume", "2026/02/01/1"], to_ready())
    else {
        panic!("expected a project to be resumed");
    };
    assert_eq!(project_path, "2026/02/01/1");
    let args = ["codex-potter", "resume"];
    assert!(matches!(last(&args, to_ready()), MainAction::ListProjects));
    let mut noisy = to_ready();
    noisy.push(MainInput::Listed(Ok(true)));
    let MainAction::Fail { cause, .. } = last(&args, noisy) else {
        panic!("expected a failure");
    };
    assert_eq!(cause, "internal error: unexpected events during project/list");
    let picked = |outcome| {
        let mut inputs = to_ready();
        inputs.push(MainInput::Listed(Ok(false)));
        inputs.push(MainInput::Picked(Ok(outcome)));
        inputs
    };
    assert!(matches!(last(&args, picked(ResumePickerOutcome::Exit)), MainAction::Finish));
    assert!(matches!(last(&args, picked(ResumePickerOutcome::StartFresh)), MainAction::RunQueue));
    let mut inputs = picked(ResumePickerOutcome::Resume("p".to_string()));
    inputs.push(MainInput::Resumed(Ok(ResumeExit::Completed)));
    inputs.push(good());
    assert!(matches!(last(&args, inputs), MainAction::RunQueue));
}

#[test]
fn projects_left_behind_are_noted() {
    let args = ["codex-potter", "resume", "p"];
    let mut inputs = to_ready();
    inputs.push(MainInput::Resumed(Ok(ResumeExit::FatalExitRequested)));
    let (mut session, mut action) = start(&args);
    for input in inputs {
        let next = session.step(input);
        session = next.0;
        action = next.1;
    }
    let MainAction::TakeQueuedPrompts { project_path, resumed } = action else {
        panic!("expected the prompts to be taken");
    };
    assert_eq!(project_path, "p");
    assert!(resumed);
    let (session, action) = session.step(MainInput::Queued {
        prompts: vec!["a".to_string()],
        resume_path: "p".to_string(),
    });
    assert!(matches!(action, MainAction::PrintNotes { .. }));
    let (_, action) = session.step(MainInput::Done);
    assert!(matches!(action, MainAction::Exit { code: 1 }));

    let mut inputs = to_ready();
    inputs.push(MainInput::QueueEnded(Ok(ProjectQueueExit::UserRequestedExit {
        project_dir: "d".to_string(),
    })));
    let (mut session, mut action) = start(&["codex-potter"]);
    for input in inputs {
        let next = session.step(input);
        session = next.0;
        action = next.1;
    }
    assert!(matches!(action, MainAction::TakeQueuedPrompts { resumed: false, .. }));
    let (session, action) =
        session.step(MainInput::Queued { prompts: Vec::new(), resume_path: "d".to_string() });
    assert!(matches!(action, MainAction::Shutdown));
    let (session, action) = session.step(MainInput::Done);
    assert!(matches!(action, MainAction::PrintNotes { ref resume_path, .. } if resume_path == "d"));
    let (_, action) = session.step(MainInput::Done);
    assert!(matches!(action, MainAction::Finish));
}

#[test]
fn a_completed_queue_ends_quietly() {
    let mut inputs = to_ready();
    inputs.push(MainInput::QueueEnded(Ok(ProjectQueueExit::Completed)));
    inputs.push(MainInput::Done);
    assert!(matches!(last(&["codex-potter"], inputs), MainAction::Finish));
}
