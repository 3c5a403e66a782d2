use std::path::PathBuf;

use codex_potter::exec::ExecRunConfig;
use codex_potter::exec::StartedProject;
use codex_potter::exec_emitter::ExecEventProgress;
use codex_potter::exec_emitter::ExecJsonlEmitter;
use codex_potter::exec_events::exec_project_outcome;
use codex_potter::exec_events::exit_code_of;
use codex_potter::exec_events::ExecJsonlEvent;
use codex_potter::exec_events::PotterProjectCompletedOutcome;
use codex_potter::exec_human::ExecHumanAction;
use codex_potter::exec_human::ExecHumanInput;
use codex_potter::exec_human::ExecHumanSession;
use codex_potter::exec_human::PotterProjectRenderExit;
use codex_potter::exec_json::ExecJsonAction;
use codex_potter::exec_json::ExecJsonInput;
use codex_potter::exec_json::ExecJsonSession;
use codex_potter::launch::AppServerLaunchConfig;
use codex_potter::launch::UpstreamCodexCliArgs;
use codex_potter::potter_protocol::PotterEventMode;
use codex_potter::protocol::ElicitationRequestEvent;
use codex_potter::protocol::EventMsg;
use codex_potter::protocol::PotterProjectOutcome;
use codex_potter::protocol::PotterRoundOutcome;
use codex_potter::protocol::RequestUserInputEvent;
use codex_potter::rounds::Rounds;

fn config(rounds: usize) -> ExecRunConfig {
    ExecRunConfig {
        rounds: Rounds::new(rounds).expect("rounds"),
        strict_rounds: true,
        codex_bin: "codex".to_string(),
        backend_launch: AppServerLaunchConfig {
            spawn_sandbox: None,
            thread_sandbox: None,
            bypass_approvals_and_sandbox: false,
        },
        potter_xmodel: false,
        upstream_cli_args: UpstreamCodexCliArgs::default(),
    }
}

fn project() -> StartedProject {
    StartedProject {
        project_id: "p1".to_string(),
        working_dir: "/w".to_string(),
        project_dir: "/w/p".to_string(),
        progress_file: "/w/p/MAIN.md".to_string(),
        git_commit_start: "abc".to_string(),
        git_branch: Some("main".to_string()),
        rounds_total: 3,
    }
}

fn round_started() -> EventMsg {
    EventMsg::PotterRoundStarted { current: 1, total: 3 }
}

fn round_finished() -> EventMsg {
    EventMsg::PotterRoundFinished { outcome: PotterRoundOutcome::Completed }
}

fn completed(outcome: PotterProjectOutcome) -> EventMsg {
    EventMsg::PotterProjectCompleted { outcome }
}

fn name(event: &ExecJsonlEvent) -> String {
    match event {
        ExecJsonlEvent::PotterProjectStarted(e) => format!("started {}", e.user_message),
        ExecJsonlEvent::PotterRoundCompleted(e) => format!("round {:?} {:?}", e.outcome, e.message),
        ExecJsonlEvent::PotterProjectCompleted(e) => format!(
            "completed {:?} {:?} {}/{} {}s {}..{}",
            e.outcome,
            e.message,
            e.rounds_run,
            e.rounds_total,
            e.duration_secs,
            e.git_commit_start,
            e.git_commit_end
        ),
        ExecJsonlEvent::TurnStarted(_) => "turn started".to_string(),
        ExecJsonlEvent::TurnCompleted(_) => "turn completed".to_string(),
        ExecJsonlEvent::TurnFailed(e) => format!("turn failed {}", e.error.message),
        ExecJsonlEvent::Error(e) => format!("error {}", e.message),
        ExecJsonlEvent::Other(_) => "other".to_string(),
    }
}

/// What a run saw and did.
#[derive(Default)]
struct Log {
    written: Vec<String>,
    steps: Vec<String>,
}

/// Runs `exec --json` over some agent events: those before the first `None` came before the answer.
fn run_json(
    mut session: ExecJsonSession,
    mut action: ExecJsonAction,
    buffered: Vec<EventMsg>,
    events: Vec<EventMsg>,
    broken_write: Option<usize>,
) -> (i32, Log) {
    let mut log = Log::default();
    let mut buffered = Some(buffered);
    let mut events = events.into_iter();
    let mut writes: usize = 0;
    loop {
        let input = match action {
            ExecJsonAction::ReadPrompt => ExecJsonInput::Prompt(Ok("from stdin".to_string())),
            ExecJsonAction::ReportError { message } => {
                log.written.push(format!("error {message}"));
                ExecJsonInput::Done
            }
            ExecJsonAction::Spawn { args } => {
                log.steps.push(format!("spawn {}", args.join(" ")));
                ExecJsonInput::Spawned(Ok(()))
            }
            ExecJsonAction::Initialize => {
                log.steps.push("initialize".to_string());
                ExecJsonInput::Initialized(Ok(()))
            }
            ExecJsonAction::StartProject { params } => {
                assert_eq!(params.event_mode, Some(PotterEventMode::ExecJson));
                assert_eq!(params.cwd, Some(PathBuf::from("/w")));
                assert_eq!(params.rounds, Some(3));
                assert!(params.strict_rounds);
                log.steps.push(format!("start {}", params.user_message));
                ExecJsonInput::Started(Ok((project(), buffered.take().unwrap_or_default())))
            }
            ExecJsonAction::Write { event } => {
                writes += 1;
                if Some(writes) == broken_write {
                    ExecJsonInput::Written(Err("broken pipe".to_string()))
                } else {
                    log.written.push(name(&event));
                    ExecJsonInput::Written(Ok(()))
                }
            }
            ExecJsonAction::ReadEvent => ExecJsonInput::Event(Ok(events.next())),
            ExecJsonAction::Translate { msg, round_started } => {
                log.steps.push(format!("translate {} {round_started}", msg.label()));
                let payload = serde_json::Value::Null;
                ExecJsonInput::Translated(match msg {
                    EventMsg::PotterRoundStarted { .. } => vec![ExecJsonlEvent::TurnStarted(payload)],
                    EventMsg::PotterRoundFinished { .. } => {
                        vec![ExecJsonlEvent::TurnCompleted(payload)]
                    }
                    _ => Vec::new(),
                })
            }
            ExecJsonAction::Interrupt { project_id } => {
                log.steps.push(format!("interrupt {project_id}"));
                ExecJsonInput::Done
            }
            ExecJsonAction::ResolveEnd => {
                ExecJsonInput::Ended { git_commit_end: "def".to_string(), duration_secs: 5 }
            }
            ExecJsonAction::Shutdown => {
                log.steps.push("shutdown".to_string());
                ExecJsonInput::Done
            }
            ExecJsonAction::Exit { code } => return (code, log),
        };
        let next = session.step(input);
        session = next.0;
        action = next.1;
    }
}

fn start_json(rounds: usize, prompt: Option<&str>) -> (ExecJsonSession, ExecJsonAction) {
    ExecJsonSession::start(config(rounds), PathBuf::from("/w"), prompt.map(str::to_string))
}

#[test]
fn json_run_reports_a_project_that_succeeds() {
    let (session, action) = start_json(3, Some("go"));
    let (code, log) = run_json(
        session,
        action,
        vec![round_started(), EventMsg::Unknown],
        vec![round_finished(), completed(PotterProjectOutcome::Succeeded)],
        None,
    );
    assert_eq!(code, 0);
    assert_eq!(
        log.written,
        [
            "started go",
            "turn started",
            "turn completed",
            "completed Succeeded None 1/3 5s abc..def",
        ]
    );
    assert_eq!(
        log.steps,
        [
            "spawn --codex-bin codex --rounds 3 --strict-rounds 3 app-server",
            "initialize",
            "start go",
            "translate potter_round_started true",
            "translate unknown false",
            "translate potter_round_finished false",
            "shutdown",
        ]
    );
}

#[test]
fn json_run_exits_with_one_unless_the_project_succeeds() {
    let outcomes = [
        (PotterProjectOutcome::BudgetExhausted, "completed BudgetExhausted None 0/3 5s abc..def"),
        (
            PotterProjectOutcome::Interrupted,
            "completed Fatal Some(\"interrupted\") 0/3 5s abc..def",
        ),
        (
            PotterProjectOutcome::TaskFailed { message: "no".to_string() },
            "completed TaskFailed Some(\"no\") 0/3 5s abc..def",
        ),
    ];
    for (outcome, last) in outcomes {
        let (session, action) = start_json(3, None);
        let (code, log) = run_json(session, action, vec![completed(outcome)], Vec::new(), None);
        assert_eq!(code, 1);
        assert_eq!(log.written, ["started from stdin", last]);
        assert!(!log.steps.iter().any(|s| s.starts_with("interrupt")));
    }
}

#[test]
fn json_run_closes_everything_when_the_stream_ends() {
    let (session, action) = start_json(3, Some("go"));
    let (code, log) = run_json(session, action, Vec::new(), vec![round_started()], None);
    assert_eq!(code, 1);
    let message = "potter app-server event stream closed unexpectedly";
    assert_eq!(
        log.written,
        [
            "started go".to_string(),
            "turn started".to_string(),
            format!("error {message}"),
            format!("turn failed {message}"),
            format!("round Fatal Some({message:?})"),
            format!("completed Fatal Some({message:?}) 1/3 5s abc..def"),
        ]
    );
    assert!(log.steps.contains(&"interrupt p1".to_string()));
}

#[test]
fn json_run_treats_interactive_requests_as_fatal() {
    let request = EventMsg::RequestUserInput(RequestUserInputEvent { call_id: "c1".to_string() });
    let (session, action) = start_json(3, Some("go"));
    let (code, log) = run_json(session, action, vec![request], Vec::new(), None);
    assert_eq!(code, 1);
    assert_eq!(
        log.written[1],
        "error unsupported interactive request: RequestUserInput call_id=c1"
    );
    assert_eq!(log.steps[log.steps.len() - 2..], ["interrupt p1", "shutdown"]);
}

#[test]
fn json_run_gives_up_when_it_cannot_write() {
    let (session, action) = start_json(3, Some("go"));
    let (code, log) = run_json(session, action, vec![round_started()], Vec::new(), Some(1));
    assert_eq!(code, 1);
    assert!(log.written.is_empty());
    assert_eq!(log.steps.last().map(String::as_str), Some("shutdown"));

    let (session, action) = start_json(3, Some("go"));
    let (code, log) = run_json(session, action, vec![round_started()], Vec::new(), Some(2));
    assert_eq!(code, 1);
    assert_eq!(
        log.written,
        [
            "started go",
            "error write exec jsonl event: broken pipe",
            "round Fatal Some(\"write exec jsonl event: broken pipe\")",
            "completed Fatal Some(\"write exec jsonl event: broken pipe\") 1/3 5s abc..def",
        ]
    );

    let (session, action) = start_json(3, Some("go"));
    let done = vec![completed(PotterProjectOutcome::Succeeded)];
    let (code, log) = run_json(session, action, done, Vec::new(), Some(2));
    assert_eq!(code, 1);
    assert_eq!(log.written, ["started go"]);
}

#[test]
fn json_preflight_failures_are_one_error() {
    let (session, action) = start_json(3, Some(" \n"));
    let (code, log) = run_json(session, action, Vec::new(), Vec::new(), None);
    assert_eq!(code, 1);
    assert_eq!(log.written, ["error prompt is empty"]);
    assert!(log.steps.is_empty());

    let (session, action) = start_json(4294967296, Some("go"));
    let (code, log) = run_json(session, action, Vec::new(), Vec::new(), None);
    assert_eq!(code, 1);
    assert_eq!(
        log.written,
        ["error round budget 4294967296 exceeds the maximum of 4294967295"]
    );
}

#[test]
fn json_server_failures_are_reported_and_shut_down() {
    let (session, action) = start_json(3, Some("go"));
    assert!(matches!(action, ExecJsonAction::Spawn { .. }));
    let (session, action) = session.step(ExecJsonInput::Spawned(Err("no exe".to_string())));
    assert!(matches!(action, ExecJsonAction::ReportError { ref message } if message == "no exe"));
    let (_, action) = session.step(ExecJsonInput::Done);
    assert!(matches!(action, ExecJsonAction::Exit { code: 1 }));

    let (session, _) = start_json(3, Some("go"));
    let (session, _) = session.step(ExecJsonInput::Spawned(Ok(())));
    let (session, action) = session.step(ExecJsonInput::Initialized(Err("e".to_string())));
    assert!(matches!(action, ExecJsonAction::Shutdown));
    let (session, action) = session.step(ExecJsonInput::Done);
    assert!(matches!(action, ExecJsonAction::ReportError { ref message } if message == "e"));
    let (_, action) = session.step(ExecJsonInput::Done);
    assert!(matches!(action, ExecJsonAction::Exit { code: 1 }));

    let (session, _) = start_json(3, Some("go"));
    let (session, _) = session.step(ExecJsonInput::Spawned(Ok(())));
    let (session, _) = session.step(ExecJsonInput::Initialized(Ok(())));
    let (session, action) = session.step(ExecJsonInput::Started(Err("e".to_string())));
    assert!(matches!(action, ExecJsonAction::ReportError { .. }));
    let (session, action) = session.step(ExecJsonInput::Done);
    assert!(matches!(action, ExecJsonAction::Shutdown));
    let (_, action) = session.step(ExecJsonInput::Done);
    assert!(matches!(action, ExecJsonAction::Exit { code: 1 }));
}

fn start_human(prompt: Option<&str>) -> (ExecHumanSession, ExecHumanAction) {
    ExecHumanSession::start(
        config(3),
        PathBuf::from("/w"),
        "continue \n\n".to_string(),
        prompt.map(str::to_string),
    )
}

/// Runs `exec` up to the render loop.
fn rendering() -> ExecHumanSession {
    let (session, action) = start_human(Some("go"));
    let ExecHumanAction::Spawn { args } = action else {
        panic!("expected spawn");
    };
    assert_eq!(args.join(" "), "--codex-bin codex --rounds 3 --strict-rounds 3 app-server");
    let (session, action) = session.step(ExecHumanInput::Spawned(Ok(())));
    assert!(matches!(action, ExecHumanAction::Initialize));
    let (session, action) = session.step(ExecHumanInput::Initialized(Ok(())));
    let ExecHumanAction::StartProject { params } = action else {
        panic!("expected a project to start");
    };
    assert_eq!(params.user_message, "go");
    assert_eq!(params.rounds, Some(3));
    assert_eq!(params.event_mode, Some(PotterEventMode::Interactive));
    let (session, action) = session.step(ExecHumanInput::Started(Ok((project(), Vec::new()))));
    let ExecHumanAction::Render { project_id, working_dir, git_branch, turn_prompt, .. } = action
    else {
        panic!("expected rendering");
    };
    assert_eq!(project_id, "p1");
    assert_eq!(working_dir, "/w");
    assert_eq!(git_branch.as_deref(), Some("main"));
    assert_eq!(turn_prompt, "continue");
    session
}

#[test]
fn human_run_exits_as_the_project_ends() {
    for (outcome, expected) in
        [(PotterProjectOutcome::Succeeded, 0), (PotterProjectOutcome::BudgetExhausted, 1)]
    {
        let exit = PotterProjectRenderExit::Completed { outcome };
        let (session, action) = rendering().step(ExecHumanInput::Rendered(Ok(exit)));
        assert!(matches!(action, ExecHumanAction::Shutdown));
        let (_, action) = session.step(ExecHumanInput::Done);
        assert!(matches!(action, ExecHumanAction::Exit { code } if code == expected));
    }
}

#[test]
fn human_run_interrupts_what_it_does_not_finish() {
    let cases = [
        (
            Ok(PotterProjectRenderExit::Interrupted),
            Some("exec human mode cannot resolve interrupted projects"),
        ),
        (Ok(PotterProjectRenderExit::UserRequested), None),
        (Ok(PotterProjectRenderExit::FatalExitRequested), None),
        (Err("lost".to_string()), Some("lost")),
    ];
    for (exit, printed) in cases {
        let (session, action) = rendering().step(ExecHumanInput::Rendered(exit));
        assert!(
            matches!(action, ExecHumanAction::Interrupt { ref project_id } if project_id == "p1")
        );
        let (session, action) = session.step(ExecHumanInput::Done);
        let (session, action) = match printed {
            Some(expected) => {
                let ExecHumanAction::PrintError { message } = action else {
                    panic!("expected an error");
                };
                assert_eq!(message, expected);
                session.step(ExecHumanInput::Done)
            }
            None => (session, action),
        };
        assert!(matches!(action, ExecHumanAction::Shutdown));
        let (_, action) = session.step(ExecHumanInput::Done);
        assert!(matches!(action, ExecHumanAction::Exit { code: 1 }));
    }
}

#[test]
fn human_run_reads_the_prompt_where_none_is_given() {
    let (session, action) = start_human(None);
    assert!(matches!(action, ExecHumanAction::ReadPrompt));
    let (session, action) = session.step(ExecHumanInput::Prompt(Ok("  ".to_string())));
    assert!(
        matches!(action, ExecHumanAction::PrintError { ref message } if message == "prompt is empty")
    );
    let (_, action) = session.step(ExecHumanInput::Done);
    assert!(matches!(action, ExecHumanAction::Exit { code: 1 }));
    let (session, _) = start_human(None);
    let (_, action) = session.step(ExecHumanInput::Prompt(Err("closed".to_string())));
    assert!(matches!(action, ExecHumanAction::PrintError { ref message } if message == "closed"));
}

#[test]
fn human_run_shuts_down_before_it_prints_why_initializing_failed() {
    let (session, _) = start_human(Some("go"));
    let (session, _) = session.step(ExecHumanInput::Spawned(Ok(())));
    let (session, action) = session.step(ExecHumanInput::Initialized(Err("e".to_string())));
    assert!(matches!(action, ExecHumanAction::Shutdown));
    let (session, action) = session.step(ExecHumanInput::Done);
    assert!(matches!(action, ExecHumanAction::PrintError { ref message } if message == "e"));
    let (_, action) = session.step(ExecHumanInput::Done);
    assert!(matches!(action, ExecHumanAction::Exit { code: 1 }));
}

#[test]
fn emitter_closes_what_is_open() {
    let mut emitter = ExecJsonlEmitter::new();
    assert_eq!(emitter.rounds_run(), 0);
    let names = |events: Vec<ExecJsonlEvent>| events.iter().map(name).collect::<Vec<_>>();
    assert_eq!(names(emitter.fail_fast_with_error("x")), ["error x"]);
    emitter.observe_json_turn_state(&ExecJsonlEvent::TurnStarted(serde_json::Value::Null));
    assert_eq!(names(emitter.fail_fast_with_error("x")), ["error x", "turn failed x"]);
    emitter.start_round();
    assert!(!emitter.json_turn_open);
    assert_eq!(names(emitter.synthesize_round_fatal_closure("x")), ["round Fatal Some(\"x\")"]);
    emitter.observe_json_turn_state(&ExecJsonlEvent::TurnStarted(serde_json::Value::Null));
    emitter.observe_json_turn_state(&ExecJsonlEvent::TurnCompleted(serde_json::Value::Null));
    assert!(!emitter.json_turn_open);
    emitter.finish_round();
    assert_eq!(emitter.rounds_run(), 1);
    assert!(!emitter.round_in_progress);
}

#[test]
fn emitter_counts_no_further_than_it_can() {
    let mut emitter =
        ExecJsonlEmitter { json_turn_open: false, round_in_progress: true, rounds_run: u32::MAX };
    emitter.finish_round();
    assert_eq!(emitter.rounds_run(), u32::MAX);
}

#[test]
fn emitter_decides_on_events() {
    let mut emitter = ExecJsonlEmitter::new();
    let request = EventMsg::ElicitationRequest(ElicitationRequestEvent {
        server_name: "mcp".to_string(),
        id: "7".to_string(),
    });
    let ExecEventProgress::FailFast { message } = emitter.process_event_msg(request) else {
        panic!("expected a failure");
    };
    assert_eq!(
        message,
        "unsupported interactive request: ElicitationRequest server_name=mcp request_id=7"
    );
    let done = completed(PotterProjectOutcome::Fatal { message: "f".to_string() });
    let ExecEventProgress::ProjectCompleted { outcome } = emitter.process_event_msg(done) else {
        panic!("expected the end");
    };
    assert_eq!(outcome, PotterProjectOutcome::Fatal { message: "f".to_string() });
    let progress = emitter.process_event_msg(round_started());
    assert!(matches!(
        progress,
        ExecEventProgress::Translate { round_started: true, round_finished: false, .. }
    ));
    assert!(emitter.round_in_progress);
    let progress = emitter.process_event_msg(round_finished());
    assert!(matches!(
        progress,
        ExecEventProgress::Translate { round_started: false, round_finished: true, .. }
    ));
}

#[test]
fn outcomes_are_reported() {
    let fatal = PotterProjectOutcome::Fatal { message: "m".to_string() };
    assert_eq!(
        exec_project_outcome(&fatal),
        (PotterProjectCompletedOutcome::Fatal, Some("m".to_string()))
    );
    assert_eq!(
        exec_project_outcome(&PotterProjectOutcome::Interrupted),
        (PotterProjectCompletedOutcome::Fatal, Some("interrupted".to_string()))
    );
    assert_eq!(
        exec_project_outcome(&PotterProjectOutcome::Succeeded),
        (PotterProjectCompletedOutcome::Succeeded, None)
    );
    assert_eq!(exit_code_of(PotterProjectCompletedOutcome::Succeeded), 0);
    assert_eq!(exit_code_of(PotterProjectCompletedOutcome::TaskFailed), 1);
}
