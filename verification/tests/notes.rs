use codex_potter::notes::ansi_bold;
use codex_potter::notes::ansi_cyan;
use codex_potter::notes::render_queued_prompts_note;
use codex_potter::notes::render_resume_note;
use codex_potter::startup::maybe_apply_default_global_gitignore;
use codex_potter::startup::maybe_prompt_global_gitignore;
use codex_potter::startup::plan_global_gitignore_prompt;
use codex_potter::startup::prepare_global_gitignore_prompt;
use codex_potter::startup::render_gitignore_notice;
use codex_potter::startup::render_startup_error;
use codex_potter::startup::run_update_action;
use codex_potter::startup::setup_steps;
use codex_potter::startup::update_announcement;
use codex_potter::startup::CodexBinError;
use codex_potter::startup::GitignoreStep;
use codex_potter::startup::GlobalGitignorePromptOutcome;
use codex_potter::startup::StartupSetupStep;

#[test]
fn render_queued_prompts_note_returns_none_when_empty() {
    assert_eq!(render_queued_prompts_note(&[], false), None);
}

#[test]
fn render_queued_prompts_note_preserves_prompt_whitespace() {
    let prompts = vec![
        String::from("  alpha\n\n  beta\n\n"),
        String::from("no trailing newline"),
    ];

    let output = render_queued_prompts_note(&prompts, false).expect("note");
    let expected = format!(
        "\n{} You have 2 queued prompts that were not run before exiting.\nCopy/paste them to continue:\n--- queued prompt 1/2 ---\n{}--- end queued prompt 1/2 ---\n--- queued prompt 2/2 ---\n{}\n--- end queued prompt 2/2 ---\n",
        ansi_bold("Warning:", false),
        prompts[0],
        prompts[1],
    );

    assert_eq!(output, expected);
}

#[test]
fn one_queued_prompt_is_counted_in_the_singular() {
    let prompts = vec![String::from("alpha")];
    assert_eq!(
        render_queued_prompts_note(&prompts, true).expect("note"),
        "\n\u{1b}[1mWarning:\u{1b}[0m You have 1 queued prompt that was not run before exiting.\nCopy/paste them to continue:\n--- queued prompt 1/1 ---\nalpha\n--- end queued prompt 1/1 ---\n"
    );
}

#[test]
fn ansi_helpers_return_plain_text_when_color_disabled() {
    assert_eq!(ansi_bold("Note:", false), "Note:");
    assert_eq!(ansi_cyan("path", false), "path");
}

#[test]
fn ansi_helpers_style_text_when_color_enabled() {
    assert_eq!(ansi_bold("Note:", true), "\u{1b}[1mNote:\u{1b}[0m");
    assert_eq!(ansi_cyan("path", true), "\u{1b}[36mpath\u{1b}[0m");
}

#[test]
fn resume_note_shows_the_command() {
    assert_eq!(
        render_resume_note("2026/02/01/1", false),
        "Note: To continue this project, run:\n  codex-potter resume 2026/02/01/1\n"
    );
    assert_eq!(
        render_resume_note("p", true),
        "\u{1b}[1mNote:\u{1b}[0m To continue this project, run:\n  \u{1b}[36mcodex-potter resume p\u{1b}[0m\n"
    );
}

#[test]
fn render_startup_error_returns_plain_text_when_color_disabled() {
    let rendered = render_startup_error(
        &CodexBinError::NotFoundInPath { command: "codex".to_string() },
        false,
    );

    assert!(rendered.ends_with('\n'));
    assert!(rendered.contains("Failed to find `codex` binary"));
    assert!(!rendered.contains('\u{1b}'));
}

#[test]
fn startup_errors_are_styled_with_colors() {
    let error = CodexBinError::NotFoundInPath { command: "cx".to_string() };
    assert_eq!(
        render_startup_error(&error, true),
        "\u{1b}[1mFailed to find `cx` binary in PATH\u{1b}[0m\n"
    );
    assert_eq!(error.render_ansi(), render_startup_error(&error, true));
}

#[test]
fn missing_gitignore_entry_is_added_unasked_without_a_user() {
    assert!(matches!(maybe_apply_default_global_gitignore(&Ok(true)), GitignoreStep::Nothing));
    assert!(matches!(maybe_apply_default_global_gitignore(&Ok(false)), GitignoreStep::Ensure));
    let GitignoreStep::Warn { line } =
        maybe_apply_default_global_gitignore(&Err("no git".to_string()))
    else {
        panic!("expected a warning");
    };
    assert_eq!(line, "warning: failed to resolve global gitignore: no git");
    assert_eq!(
        render_gitignore_notice(&Ok(()), ".codexpotter/", "~/.gitignore", false),
        "Notice: added .codexpotter/ to global gitignore ~/.gitignore"
    );
    assert_eq!(
        render_gitignore_notice(&Ok(()), "e", "p", true),
        "\u{1b}[1mNotice:\u{1b}[0m added \u{1b}[36me\u{1b}[0m to global gitignore \u{1b}[36mp\u{1b}[0m"
    );
    assert_eq!(
        render_gitignore_notice(&Err("read-only".to_string()), "e", "~/.gitignore", true),
        "warning: failed to update global gitignore ~/.gitignore: read-only"
    );
}

#[test]
fn user_is_asked_about_the_gitignore_unless_the_configuration_says_no() {
    assert!(matches!(prepare_global_gitignore_prompt(&Ok(Some(true))), GitignoreStep::Nothing));
    assert!(matches!(prepare_global_gitignore_prompt(&Ok(Some(false))), GitignoreStep::Detect));
    assert!(matches!(prepare_global_gitignore_prompt(&Ok(None)), GitignoreStep::Detect));
    let GitignoreStep::Warn { line } = prepare_global_gitignore_prompt(&Err("e".to_string())) else {
        panic!("expected a warning");
    };
    assert_eq!(line, "warning: failed to locate codexpotter config: e");
    assert!(matches!(plan_global_gitignore_prompt(&Ok(true)), GitignoreStep::Nothing));
    assert!(matches!(plan_global_gitignore_prompt(&Ok(false)), GitignoreStep::Ask));
    assert!(matches!(
        plan_global_gitignore_prompt(&Err("e".to_string())),
        GitignoreStep::Warn { .. }
    ));
}

#[test]
fn answers_about_the_gitignore_are_followed() {
    let add = Ok(GlobalGitignorePromptOutcome::AddToGlobalGitignore);
    assert!(matches!(maybe_prompt_global_gitignore(&add), GitignoreStep::Ensure));
    let no = Ok(GlobalGitignorePromptOutcome::No);
    assert!(matches!(maybe_prompt_global_gitignore(&no), GitignoreStep::Nothing));
    let never = Ok(GlobalGitignorePromptOutcome::NoDontAskAgain);
    assert!(matches!(maybe_prompt_global_gitignore(&never), GitignoreStep::PersistHide));
    let GitignoreStep::WarnAndClear { line } = maybe_prompt_global_gitignore(&Err("e".to_string()))
    else {
        panic!("expected a warning");
    };
    assert_eq!(line, "warning: global gitignore prompt failed: e");
}

#[test]
fn setup_steps_are_numbered_where_there_are_two() {
    let first = StartupSetupStep { index: 1, total: 2 };
    let second = StartupSetupStep { index: 2, total: 2 };
    assert_eq!(setup_steps(true, true), (Some(first), Some(second)));
    assert_eq!(setup_steps(true, false), (None, None));
    assert_eq!(setup_steps(false, true), (None, None));
}

#[test]
fn updates_are_announced_and_reported() {
    assert_eq!(update_announcement("npm i"), "Updating CodexPotter via `npm i`...");
    assert_eq!(
        run_update_action("npm i", true, "exit status: 0"),
        Ok("Update ran successfully! Please restart CodexPotter.")
    );
    assert_eq!(
        run_update_action("npm i", false, "exit status: 1"),
        Err("`npm i` failed with status exit status: 1".to_string())
    );
}
