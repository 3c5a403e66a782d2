use codex_potter::history_cell::format_potter_round_session_label;
use codex_potter::history_cell::new_potter_project_budget_exhausted;
use codex_potter::history_cell::new_potter_project_hint;
use codex_potter::history_cell::new_potter_project_interrupted;
use codex_potter::history_cell::new_potter_project_succeeded;
use codex_potter::history_cell::new_potter_round_marker;
use codex_potter::history_cell::short_git_commit;
use codex_potter::history_cell::PotterStreamRecoveryRetryCell;
use codex_potter::history_cell::PotterStreamRecoveryUnrecoverableCell;
use codex_potter::history_cell::SpanColor;
use codex_potter::history_cell::StyledLine;
use codex_potter::protocol::ReasoningEffort;
use codex_potter::protocol::ServiceTier;

fn text(line: &StyledLine) -> String {
    line.spans.iter().map(|s| s.content.as_str()).collect()
}

#[test]
fn potter_project_summary_interrupted_is_red_and_not_bold() {
    let cell = new_potter_project_interrupted(
        1,
        23,
        ".codexpotter/projects/2026/03/07/9/MAIN.md".to_string(),
        String::new(),
        String::new(),
    );

    let lines = cell.display_lines(120, "23s");
    let header = &lines[0];
    let interrupted = header
        .spans
        .iter()
        .find(|span| span.content == "(Interrupted)")
        .unwrap_or_else(|| panic!("expected interrupted marker in header: {header:?}"));

    assert_eq!(interrupted.style.color, Some(SpanColor::Red));
    assert!(
        !interrupted.style.bold,
        "Interrupted marker should not be bold: {interrupted:?}"
    );
}

#[test]
fn potter_project_summary_budget_exhausted_is_red_and_not_bold() {
    let cell = new_potter_project_budget_exhausted(
        10,
        23,
        ".codexpotter/projects/2026/03/07/9/MAIN.md".to_string(),
        String::new(),
        String::new(),
    );

    let lines = cell.display_lines(120, "23s");
    let header = &lines[0];
    let exhausted = header
        .spans
        .iter()
        .find(|span| span.content == "(Budget exhausted)")
        .unwrap_or_else(|| panic!("expected budget marker in header: {header:?}"));

    assert_eq!(exhausted.style.color, Some(SpanColor::Red));
    assert!(
        !exhausted.style.bold,
        "Budget marker should not be bold: {exhausted:?}"
    );
}

#[test]
fn summary_has_git_and_resume_lines() {
    let cell = new_potter_project_succeeded(
        3,
        61,
        ".codexpotter/projects/2026/03/07/9/MAIN.md".to_string(),
        "0123456789".to_string(),
        "abc".to_string(),
    );
    assert_eq!(cell.duration_secs(), 61);
    let lines = cell.display_lines(50, "1m 01s");
    let texts: Vec<String> = lines.iter().map(text).collect();
    assert_eq!(
        texts,
        [
            "─ CodexPotter summary: 3 rounds in 1m 01s ────────",
            "",
            "  Git:               0123456 -> abc",
            "  Task history:      .codexpotter/projects/2026/03/07/9/MAIN.md",
            "  Loop more rounds:  codex-potter resume 2026/03/07/9",
        ]
    );
    assert!(lines[0].spans[3].style.bold);
    assert_eq!(lines[2].spans[3].style.color, Some(SpanColor::Cyan));
}

#[test]
fn summary_rule_counts_columns_and_not_characters() {
    let cell = new_potter_project_succeeded(
        1,
        0,
        "elsewhere".to_string(),
        String::new(),
        String::new(),
    );
    let narrow = cell.display_lines(60, "zz");
    let wide = cell.display_lines(60, "時間");
    assert_eq!(text(&narrow[0]).chars().count(), 60);
    assert_eq!(text(&wide[0]).chars().count(), 58);
    assert_eq!(narrow.len(), 4);
    assert_eq!(text(&narrow[3]), "  Loop more rounds:  codex-potter resume elsewhere");
    let cramped = cell.display_lines(5, "0s");
    assert_eq!(text(&cramped[0]), "─ CodexPotter summary: 1 rounds in 0s ─");
}

#[test]
fn summary_takes_the_resume_path_that_it_is_given() {
    let cell = new_potter_project_succeeded(1, 0, "f".to_string(), String::new(), String::new());
    let lines = cell.display_lines_for(0, "0s", "p");
    assert_eq!(text(&lines[3]), "  Loop more rounds:  codex-potter resume p");
}

#[test]
fn commits_are_shortened() {
    assert_eq!(short_git_commit("0123456789"), "0123456");
    assert_eq!(short_git_commit("0123456"), "0123456");
    assert_eq!(short_git_commit(""), "");
    assert_eq!(short_git_commit("äöü"), "äöü");
}

#[test]
fn session_labels_name_model_effort_and_tier() {
    let effort = ReasoningEffort { label: "high".to_string() };
    assert_eq!(
        format_potter_round_session_label(" gpt-5 ", Some(&effort), Some(ServiceTier::Fast)),
        "gpt-5 high [fast]"
    );
    assert_eq!(
        format_potter_round_session_label("gpt-5", None, Some(ServiceTier::Flex)),
        "gpt-5"
    );
    assert_eq!(format_potter_round_session_label("  ", Some(&effort), None), "");
}

#[test]
fn round_markers_count_rounds() {
    let effort = ReasoningEffort { label: "low".to_string() };
    let cell = new_potter_round_marker(2, 10, "m", Some(&effort), None);
    assert_eq!(text(&cell.line), "CodexPotter: iteration round 2/10 (m low)");
    assert_eq!(cell.line.spans[0].style.color, Some(SpanColor::Secondary));
    assert!(cell.line.spans[0].style.bold);
    assert_eq!(cell.initial_prefix.content, "• ");
    assert!(cell.initial_prefix.style.dim);
    assert_eq!(cell.subsequent_prefix.content, "  ");
    let cell = new_potter_round_marker(1, 1, "", None, None);
    assert_eq!(text(&cell.line), "CodexPotter: iteration round 1/1");
}

#[test]
fn project_hints_show_the_file() {
    let cell = new_potter_project_hint("a/MAIN.md");
    assert_eq!(text(&cell.line), "Project created: a/MAIN.md");
    assert!(cell.line.spans[0].style.dim);
    assert_eq!(cell.initial_prefix.content, "  ↳ ");
    assert_eq!(cell.subsequent_prefix.content, "    ");
}

#[test]
fn retries_are_counted_and_explained() {
    let cell = PotterStreamRecoveryRetryCell {
        attempt: 2,
        max_attempts: 0,
        error_message: "  stream closed\nagain".to_string(),
    };
    assert_eq!(cell.error_text(), "stream closed\nagain");
    let blocks = cell.display_blocks(40, "Stream closed\nagain");
    assert_eq!(text(&blocks[0].lines[0]), "CodexPotter: retry 2");
    assert_eq!(blocks[0].width, 40);
    assert_eq!(text(&blocks[0].initial_indent), "• ");
    let texts: Vec<String> = blocks[1].lines.iter().map(text).collect();
    assert_eq!(texts, ["Stream closed", "again"]);
    assert_eq!(text(&blocks[1].initial_indent), "  └ ");
    assert_eq!(text(&blocks[1].subsequent_indent), "    ");
    assert_eq!(blocks[1].break_words, Some(true));
    assert!(cell.display_blocks(0, "x").is_empty());
    let limited = PotterStreamRecoveryRetryCell {
        attempt: 2,
        max_attempts: 5,
        error_message: String::new(),
    };
    assert_eq!(text(&limited.display_blocks(1, "")[0].lines[0]), "CodexPotter: retry 2/5");
}

#[test]
fn unrecoverable_errors_are_red() {
    let cell = PotterStreamRecoveryUnrecoverableCell {
        max_attempts: 3,
        error_message: " gone".to_string(),
    };
    assert_eq!(cell.error_text(), "gone");
    let blocks = cell.display_blocks(40, "Gone");
    assert_eq!(text(&blocks[0].lines[0]), "■ CodexPotter: unrecoverable error after 3 retries");
    assert_eq!(blocks[0].lines[0].spans[0].style.color, Some(SpanColor::Red));
    assert_eq!(text(&blocks[1].lines[0]), "Gone");
    assert_eq!(blocks[1].lines[0].spans[0].style.color, Some(SpanColor::Red));
    assert!(cell.display_blocks(0, "x").is_empty());
    let unlimited = PotterStreamRecoveryUnrecoverableCell {
        max_attempts: 0,
        error_message: String::new(),
    };
    assert_eq!(
        text(&unlimited.display_blocks(9, "")[0].lines[0]),
        "■ CodexPotter: unrecoverable error"
    );
}

#[test]
fn summary_header_fills_the_screen() {
    for width in [0, 10, 40, 120] {
        let commit = "0123456789".to_string();
        let cell =
            new_potter_project_succeeded(3, 9, "MAIN.md".to_string(), commit.clone(), commit);
        let header = text(&cell.display_lines(width, "9s")[0]);
        let columns = header.chars().count();
        assert!(columns >= width as usize);
        assert!(width < 60 || columns == width as usize);
    }
}
