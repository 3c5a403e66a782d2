use codex_potter::protocol::TurnCompleteEvent;
use codex_potter::stream_recovery::ContinueRetryDecision;
use codex_potter::stream_recovery::ContinueRetryPlan;
use codex_potter::stream_recovery::PotterStreamRecovery;
use codex_potter::stream_recovery::MAX_BACKOFF_SECS;

#[test]
fn plan_retry_sends_immediately_then_backs_off_exponentially() {
    let mut state = PotterStreamRecovery::new();

    let mut plans = Vec::new();
    for _ in 0..3 {
        let Some(ContinueRetryDecision::Retry(plan)) = state.plan_retry(true) else {
            panic!("expected retry plan");
        };
        plans.push(plan);
    }

    assert_eq!(
        plans,
        vec![
            ContinueRetryPlan { attempt: 1, max_attempts: 0, backoff_secs: 0 },
            ContinueRetryPlan { attempt: 2, max_attempts: 0, backoff_secs: 1 },
            ContinueRetryPlan { attempt: 3, max_attempts: 0, backoff_secs: 2 },
        ]
    );
}

#[test]
fn observe_event_resets_retry_budget_on_activity() {
    let mut state = PotterStreamRecovery::new();

    let Some(ContinueRetryDecision::Retry(first)) = state.plan_retry(true) else {
        panic!("expected retry plan");
    };
    assert_eq!(first.attempt, 1);

    let Some(ContinueRetryDecision::Retry(second)) = state.plan_retry(true) else {
        panic!("expected retry plan");
    };
    assert_eq!(second.attempt, 2);

    state.observe_event(true);

    let Some(ContinueRetryDecision::Retry(reset)) = state.plan_retry(true) else {
        panic!("expected retry plan");
    };
    assert_eq!(reset.attempt, 1);
}

#[test]
fn plan_retry_never_gives_up_and_caps_backoff() {
    let mut state = PotterStreamRecovery::new();

    let mut last_plan = None;
    for _ in 0..20 {
        let Some(ContinueRetryDecision::Retry(plan)) = state.plan_retry(true) else {
            panic!("expected retry plan");
        };
        last_plan = Some(plan);
    }

    let last_plan = last_plan.expect("last plan");
    assert_eq!(last_plan.attempt, 20);
    assert_eq!(last_plan.max_attempts, 0);
    assert_eq!(last_plan.backoff_secs, MAX_BACKOFF_SECS);
}

#[test]
fn should_suppress_turn_complete_during_retry_streak() {
    let mut state = PotterStreamRecovery::new();

    let Some(ContinueRetryDecision::Retry(_)) = state.plan_retry(true) else {
        panic!("expected retry plan");
    };

    assert!(state.should_suppress_turn_complete(&TurnCompleteEvent {
        turn_id: "turn-1".to_string(),
        last_agent_message: None,
    }));

    assert!(!state.should_suppress_turn_complete(&TurnCompleteEvent {
        turn_id: "turn-1".to_string(),
        last_agent_message: Some("done".to_string()),
    }));
}

#[test]
fn other_errors_are_not_retried() {
    let mut state = PotterStreamRecovery::default();
    assert!(state.plan_retry(false).is_none());
    assert!(!state.is_in_retry_streak());
    assert!(!state.should_suppress_turn_complete(&TurnCompleteEvent {
        turn_id: String::new(),
        last_agent_message: None,
    }));
}

#[test]
fn events_without_activity_keep_the_streak() {
    let mut state = PotterStreamRecovery::new();
    state.plan_retry(true);
    state.observe_event(false);
    assert!(state.is_in_retry_streak());
    assert!(state.should_suppress_turn_complete(&TurnCompleteEvent {
        turn_id: String::new(),
        last_agent_message: Some(String::new()),
    }));
    state.observe_event(true);
    assert!(!state.is_in_retry_streak());
}

#[test]
fn backoff_doubles_up_to_the_maximum() {
    let mut state = PotterStreamRecovery::new();
    let mut waits: Vec<u64> = Vec::new();
    for _ in 0..12 {
        let Some(ContinueRetryDecision::Retry(plan)) = state.plan_retry(true) else {
            panic!("expected retry plan");
        };
        waits.push(plan.backoff_secs);
    }
    assert_eq!(waits, [0, 1, 2, 4, 8, 16, 32, 64, 128, 256, 300, 300]);
}
