use codex_potter::token_usage::FinalOutput;
use codex_potter::token_usage::TokenUsage;
use codex_potter::token_usage::TokenUsageInfo;

fn usage(input: i64, cached: i64, output: i64, reasoning: i64, total: i64) -> TokenUsage {
    TokenUsage {
        input_tokens: input,
        cached_input_tokens: cached,
        output_tokens: output,
        reasoning_output_tokens: reasoning,
        total_tokens: total,
    }
}

#[test]
fn counts_leave_cached_input_out() {
    let u = usage(100, 30, 20, 5, 120);
    assert_eq!(u.cached_input(), 30);
    assert_eq!(u.non_cached_input(), 70);
    assert_eq!(u.blended_total(), 90);
    assert_eq!(u.tokens_in_context_window(), 120);
    assert!(!u.is_zero());
    assert!(TokenUsage::default().is_zero());
    let odd = usage(10, 30, -4, 0, 0);
    assert_eq!(odd.non_cached_input(), 0);
    assert_eq!(odd.blended_total(), 0);
    assert_eq!(usage(10, -3, 1, 0, 0).cached_input(), 0);
}

#[test]
fn usage_adds_up() {
    let mut total = usage(1, 2, 3, 4, 5);
    total.add_assign(&usage(10, 20, 30, 40, 50));
    assert_eq!(total, usage(11, 22, 33, 44, 55));
}

#[test]
fn reports_are_appended() {
    assert!(TokenUsageInfo::new_or_append(&None, &None, Some(1)).is_none());
    let first = TokenUsageInfo::new_or_append(&None, &Some(usage(1, 0, 2, 0, 3)), Some(9));
    let first_info = first.clone().expect("info");
    assert_eq!(first_info.total_token_usage, usage(1, 0, 2, 0, 3));
    assert_eq!(first_info.model_context_window, Some(9));
    let second = TokenUsageInfo::new_or_append(&first, &Some(usage(4, 1, 1, 1, 5)), Some(7))
        .expect("info");
    assert_eq!(second.total_token_usage, usage(5, 1, 3, 1, 8));
    assert_eq!(second.last_token_usage, usage(4, 1, 1, 1, 5));
    assert_eq!(second.model_context_window, Some(9));
    let kept = TokenUsageInfo::new_or_append(&first, &None, Some(7)).expect("info");
    assert_eq!(kept, first_info);
}

#[test]
fn windows_are_filled() {
    let full = TokenUsageInfo::full_context_window(1000);
    assert_eq!(full.total_token_usage, usage(0, 0, 0, 0, 1000));
    assert_eq!(full.last_token_usage, usage(0, 0, 0, 0, 1000));
    assert_eq!(full.model_context_window, Some(1000));
    let mut info = TokenUsageInfo {
        total_token_usage: usage(1, 1, 1, 1, 1200),
        last_token_usage: TokenUsage::default(),
        model_context_window: None,
    };
    info.fill_to_context_window(1000);
    assert_eq!(info.last_token_usage, usage(0, 0, 0, 0, 0));
    assert_eq!(info.total_token_usage, usage(0, 0, 0, 0, 1000));
}

#[test]
fn remaining_window_leaves_the_baseline_out() {
    let u = usage(0, 0, 0, 0, 62000);
    assert_eq!(u.context_window_remaining(112000), Some((50000, 100000)));
    assert_eq!(u.context_window_remaining(12000), None);
    assert_eq!(usage(0, 0, 0, 0, 5).context_window_remaining(112000), Some((100000, 100000)));
    assert_eq!(usage(0, 0, 0, 0, 500000).context_window_remaining(112000), Some((0, 100000)));
}

#[test]
fn final_output_names_what_there_is() {
    let output = FinalOutput::from(usage(100, 30, 20, 5, 120));
    let counts = output.counts();
    assert_eq!(counts.total, 90);
    assert_eq!(counts.input, 70);
    assert_eq!(counts.cached, Some(30));
    assert_eq!(counts.output, 20);
    assert_eq!(counts.reasoning, Some(5));
    assert_eq!(
        FinalOutput::render("90", "70", Some("30"), "20", Some("5")),
        "Token usage: total=90 input=70 (+ 30 cached) output=20 (reasoning 5)"
    );
    let counts = FinalOutput::from(usage(1, 0, 2, 0, 3)).counts();
    assert_eq!(counts.cached, None);
    assert_eq!(counts.reasoning, None);
    assert_eq!(
        FinalOutput::render("3", "1", None, "2", None),
        "Token usage: total=3 input=1 output=2"
    );
}
