use codex_potter::potter_protocol::PotterEventMode;
use codex_potter::potter_protocol::ProjectListParams;
use codex_potter::potter_protocol::ResumePolicy;
use codex_potter::potter_protocol::POTTER_EVENT_NOTIFICATION_METHOD;
use codex_potter::protocol::AgentStatus;
use codex_potter::protocol::BackgroundEventEvent;
use codex_potter::protocol::EventMsg;
use codex_potter::protocol::ExecCommandSource;
use codex_potter::protocol::PlanType;
use codex_potter::protocol::RateLimitWindow;
use codex_potter::protocol::ReviewDecision;
use codex_potter::protocol::ServiceTier;
use codex_potter::protocol::TurnStartedEvent;
use codex_potter::runtime_log::append_diagnostic;
use codex_potter::runtime_log::append_line;
use codex_potter::runtime_log::append_round_started;
use codex_potter::runtime_log::append_session_started;
use codex_potter::runtime_log::now_unix_secs;
use codex_potter::runtime_log::potter_runtime_log_path;
use codex_potter::runtime_log::AppendStep;
use codex_potter::runtime_log::PotterRuntimeDiagnosticReason;
use codex_potter::runtime_log::PotterRuntimeLogLine;

#[test]
fn events_have_names() {
    let started = EventMsg::TurnStarted(TurnStartedEvent {
        turn_id: String::new(),
        model_context_window: None,
    });
    assert_eq!(started.label(), "turn_started");
    let background =
        EventMsg::BackgroundEvent(BackgroundEventEvent { message: String::new() });
    assert_eq!(background.label(), "background_event");
    assert_eq!(EventMsg::PotterRoundStarted { current: 1, total: 2 }.label(), "potter_round_started");
    assert_eq!(EventMsg::Unknown.label(), "unknown");
}

#[test]
fn settings_have_names() {
    assert_eq!(ServiceTier::Fast.label(), "fast");
    assert_eq!(ServiceTier::Flex.label(), "flex");
    assert_eq!(ExecCommandSource::UnifiedExecStartup.label(), "UnifiedExecStartup");
    assert_eq!(ReviewDecision::ApprovedForSession.label(), "ApprovedForSession");
}

#[test]
fn types_have_defaults() {
    assert_eq!(PlanType::default(), PlanType::Free);
    assert_eq!(ExecCommandSource::default(), ExecCommandSource::Agent);
    assert_eq!(ReviewDecision::default(), ReviewDecision::Denied);
    assert_eq!(AgentStatus::default(), AgentStatus::PendingInit);
    assert_eq!(PotterEventMode::default(), PotterEventMode::Interactive);
    assert_eq!(ResumePolicy::default(), ResumePolicy::ContinueUnfinishedRound);
    assert!(ProjectListParams::default().cwd.is_none());
    assert_eq!(POTTER_EVENT_NOTIFICATION_METHOD, "codex/event/potter");
}

#[test]
fn append_and_read_runtime_log_lines() {
    let lines = [
        append_session_started(7, "fresh_start".to_string()),
        append_round_started(8, 1, 100),
        append_diagnostic(
            9,
            PotterRuntimeDiagnosticReason::EventStreamClosed,
            Some(1),
            Some(100),
            "event stream closed unexpectedly".to_string(),
        ),
    ];
    assert_eq!(lines.len(), 3);
    assert!(matches!(
        lines[0],
        PotterRuntimeLogLine::SessionStarted { ref mode, unix_secs: 7 } if mode == "fresh_start"
    ));
    assert!(matches!(
        lines[1],
        PotterRuntimeLogLine::RoundStarted { current: 1, total: 100, unix_secs: 8 }
    ));
    assert!(matches!(
        lines[2],
        PotterRuntimeLogLine::Diagnostic {
            reason: PotterRuntimeDiagnosticReason::EventStreamClosed,
            round_current: Some(1),
            round_total: Some(100),
            ..
        }
    ));
}

#[test]
fn log_is_appended_to_line_by_line() {
    let mut log = String::new();
    for json in ["{\"a\":1}", "{\"b\":2}"] {
        let plan = append_line("d/potter-runtime.jsonl", Some("d"), json.to_string()).expect("plan");
        assert_eq!(plan.create_dir, "d");
        log.push_str(&plan.text);
    }
    assert_eq!(log.lines().collect::<Vec<_>>(), ["{\"a\":1}", "{\"b\":2}"]);
    assert_eq!(
        append_line("/", None, "{}".to_string()),
        Err("invalid potter-runtime path (no parent): /".to_string())
    );
}

#[test]
fn log_stands_in_the_project() {
    let dir = vec!["w".to_string(), "p".to_string()];
    assert_eq!(potter_runtime_log_path(&dir), ["w", "p", "potter-runtime.jsonl"]);
}

#[test]
fn clocks_before_the_epoch_show_zero() {
    assert_eq!(now_unix_secs(Some(5)), 5);
    assert_eq!(now_unix_secs(None), 0);
}

#[test]
fn failed_steps_name_the_path() {
    assert_eq!(AppendStep::Create.context("p"), "create p");
    assert_eq!(AppendStep::Open.context("p"), "open p");
    assert_eq!(AppendStep::Serialize.context("p"), "serialize potter-runtime line for p");
    assert_eq!(AppendStep::Write.context("p"), "write p");
    assert_eq!(AppendStep::Flush.context("p"), "flush p");
}

#[test]
fn rate_limits_compare_as_numbers() {
    let window = |used: f64| RateLimitWindow {
        used_percent_bits: used.to_bits(),
        window_minutes: Some(5),
        resets_at: None,
    };
    let numbers = [0.0, -0.0, 1.5, -1.5, f64::INFINITY, f64::NEG_INFINITY, f64::NAN, -f64::NAN];
    for a in numbers {
        for b in numbers {
            assert_eq!(window(a) == window(b), a == b);
        }
    }
    assert!(window(1.0) != RateLimitWindow { resets_at: Some(1), ..window(1.0) });
}
