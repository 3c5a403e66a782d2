use codex_potter::project::effective_potter_xmodel_enabled;
use codex_potter::project::git_branch_args;
use codex_potter::project::git_commit_args;
use codex_potter::project::git_stdout_trimmed;
use codex_potter::project::git_text_trimmed;
use codex_potter::project::progress_file_git_branch;
use codex_potter::project::progress_file_git_commit_start;
use codex_potter::project::progress_file_has_finite_incantatem_true;
use codex_potter::project::progress_file_potter_xmodel_enabled;
use codex_potter::project::progress_file_short_title;
use codex_potter::project::render_developer_prompt;
use codex_potter::project::render_project_main;
use codex_potter::project::requests_potter_xmodel;
use codex_potter::project::resolve_git_branch;
use codex_potter::project::resolve_git_commit;
use codex_potter::project::resolve_git_metadata;
use codex_potter::project::set_progress_file_finite_incantatem;
use codex_potter::project::GitOutput;
use codex_potter::project_setup::day_parts;
use codex_potter::project_setup::ProjectSetup;
use codex_potter::project_setup::SetupAction;
use codex_potter::project_setup::SetupInput;

const TEMPLATE: &str = "---\nstatus: initial\ngit_commit: \"{{GIT_COMMIT}}\"\ngit_branch: \"{{GIT_BRANCH}}\"\n{{POTTER_XMODEL_FRONT_MATTER}}\n---\n\n# Overall Goal\n\n{{USER_PROMPT}}\n";

fn git(stdout: &str) -> SetupInput {
    SetupInput::Git(Some(GitOutput { success: true, stdout: stdout.as_bytes().to_vec() }))
}

/// Sets a project up in a directory where the first `taken` numbers are in use.
fn init_project(prompt: &str, commit: SetupInput, branch: SetupInput, taken: u32) -> (String, String, String) {
    let date = day_parts(2026, 1, 27).expect("timestamp");
    let (mut setup, mut action) = ProjectSetup::start(TEMPLATE.to_string(), prompt.to_string(), date);
    let mut git_inputs = vec![branch, commit];
    let mut looked: u32 = 0;
    let mut created: Vec<String> = Vec::new();
    let mut written = String::new();
    loop {
        let input = match action {
            SetupAction::RunGit { .. } => git_inputs.pop().expect("two git calls"),
            SetupAction::CreateDir { path } => {
                created.push(path.join("/"));
                SetupInput::Done(true)
            }
            SetupAction::Exists { .. } => {
                looked += 1;
                SetupInput::Exists(looked <= taken)
            }
            SetupAction::Write { path, contents } => {
                assert_eq!(path.last().map(String::as_str), Some("MAIN.md"));
                written = contents;
                SetupInput::Done(true)
            }
            SetupAction::Done { progress_file_rel, git_commit_start } => {
                assert!(created.contains(&".codexpotter/kb".to_string()));
                return (progress_file_rel.join("/"), git_commit_start, written);
            }
            SetupAction::Failed { .. } => panic!("init project"),
        };
        action = setup.step(input);
    }
}

#[test]
fn init_project_creates_main_md_and_increments_suffix() {
    let (first, commit, main) =
        init_project("do something", SetupInput::Git(None), SetupInput::Git(None), 0);
    assert_eq!(first, ".codexpotter/projects/2026/01/27/1/MAIN.md");
    assert_eq!(commit, "");
    assert!(main.contains("---\n\n# Overall Goal"));
    assert!(main.contains("do something"));
    assert!(main.contains("git_commit: \"\""));
    assert!(main.contains("git_branch: \"\""));

    let (second, _, _) =
        init_project("do something else", SetupInput::Git(None), SetupInput::Git(None), 1);
    assert_eq!(second, ".codexpotter/projects/2026/01/27/2/MAIN.md");

    let developer = render_developer_prompt("Keep {{PROGRESS_FILE}} up to date.", &second);
    assert!(developer.contains(&second));
}

#[test]
fn init_project_sets_potter_xmodel_and_strips_marker_from_overall_goal() {
    let (_, _, main) = init_project(
        "do /potter:xmodel something",
        SetupInput::Git(None),
        SetupInput::Git(None),
        0,
    );
    assert!(main.contains("potter.xmodel: true"));
    assert!(!main.contains("/potter:xmodel"));
    assert!(main.contains("do something"));
}

#[test]
fn init_project_keeps_potter_xmodel_without_trailing_space_in_main_md() {
    let (_, _, main) = init_project(
        "do /potter:xmodel\nsomething",
        SetupInput::Git(None),
        SetupInput::Git(None),
        0,
    );
    assert!(main.contains("potter.xmodel: true"));
    assert!(main.contains("/potter:xmodel\nsomething"));
}

#[test]
fn init_project_writes_git_commit_and_branch_when_in_repo() {
    let (_, commit, main) =
        init_project("do something", git("0123abcd\n"), git("test-branch\n"), 0);
    assert_eq!(commit, "0123abcd");
    assert!(main.contains("git_commit: \"0123abcd\""));
    assert!(main.contains("git_branch: \"test-branch\""));

    let detached = SetupInput::Git(Some(GitOutput { success: false, stdout: Vec::new() }));
    let (_, _, main) = init_project("do something else", git("0123abcd\n"), detached, 1);
    assert!(main.contains("git_commit: \"0123abcd\""));
    assert!(main.contains("git_branch: \"\""));
}

#[test]
fn first_free_number_is_taken() {
    let (path, _, _) = init_project("x", SetupInput::Git(None), SetupInput::Git(None), 11);
    assert_eq!(path, ".codexpotter/projects/2026/01/27/12/MAIN.md");
}

#[test]
fn failures_end_the_setup() {
    let date = day_parts(2026, 12, 31).expect("date");
    let (mut setup, _) = ProjectSetup::start(TEMPLATE.to_string(), "x".to_string(), date);
    setup.step(SetupInput::Git(None));
    let action = setup.step(SetupInput::Git(None));
    let SetupAction::CreateDir { path } = action else {
        panic!("expected a directory");
    };
    assert_eq!(path, [".codexpotter", "projects"]);
    let SetupAction::Failed { work, path } = setup.step(SetupInput::Done(false)) else {
        panic!("expected a failure");
    };
    assert_eq!(work.context(&path.join("/")), "create .codexpotter/projects");
}

#[test]
fn failures_name_the_step_and_its_path() {
    let work_done = [SetupInput::Git(None), SetupInput::Git(None), SetupInput::Done(true)];
    let date = day_parts(2026, 12, 31).expect("date");
    let (mut setup, _) = ProjectSetup::start(TEMPLATE.to_string(), "x".to_string(), date);
    for input in work_done {
        setup.step(input);
    }
    setup.step(SetupInput::Done(true));
    setup.step(SetupInput::Exists(true));
    setup.step(SetupInput::Exists(false));
    setup.step(SetupInput::Done(true));
    let SetupAction::Failed { work, path } = setup.step(SetupInput::Done(false)) else {
        panic!("expected a failure");
    };
    let expected = "write .codexpotter/projects/2026/12/31/2/MAIN.md";
    assert_eq!(work.context(&path.join("/")), expected);
}

#[test]
fn days_are_written_with_leading_zeros() {
    let day = day_parts(2026, 3, 7).expect("date");
    assert_eq!((day.year.as_str(), day.month.as_str(), day.day.as_str()), ("2026", "03", "07"));
    assert!(day_parts(2026, 2, 29).is_none());
    assert!(day_parts(2024, 2, 29).is_some());
    assert!(day_parts(2026, 13, 1).is_none());
}

#[test]
fn set_progress_file_finite_incantatem_updates_front_matter() {
    let contents = "---\nstatus: open\nfinite_incantatem: true\n---\n\n# Goal\n\nHi\n";
    let updated = set_progress_file_finite_incantatem(contents, false)
        .expect("set false")
        .expect("changed");
    assert!(updated.contains("finite_incantatem: false\n"));
    assert!(updated.contains("status: open\n"));
    assert!(updated.contains("# Goal\n"));
    assert_eq!(set_progress_file_finite_incantatem(&updated, false).expect("again"), None);
}

#[test]
fn progress_file_git_commit_start_reads_front_matter_key() {
    let contents = "---\nstatus: open\ngit_commit: \"abc123\"\n---\n\n# Goal\n\nHi\n";
    assert_eq!(progress_file_git_commit_start(contents).expect("read git_commit"), "abc123");
    assert_eq!(progress_file_git_commit_start("---\n---\n").expect("read git_commit"), "");
}

#[test]
fn progress_file_short_title_reads_multi_word_front_matter_value() {
    let contents = "---\nstatus: open\nshort_title: Fix resume picker search\ngit_branch: main\n---\n\n# Overall Goal\n";
    assert_eq!(
        progress_file_short_title(contents).expect("read short_title"),
        Some("Fix resume picker search".to_string())
    );
    assert_eq!(
        progress_file_git_branch(contents).expect("read git_branch"),
        Some("main".to_string())
    );
    let blank = "---\ngit_branch: \"  \"\n---\n";
    assert_eq!(progress_file_git_branch(blank).expect("read git_branch"), None);
}

#[test]
fn progress_file_has_finite_incantatem_true_reads_front_matter() {
    let contents = "---\nstatus: open\nfinite_incantatem: true\n---\n\n# Overall Goal\n";
    assert!(progress_file_has_finite_incantatem_true(contents).expect("read stop flag"));
}

#[test]
fn progress_file_has_finite_incantatem_true_is_false_when_missing() {
    let contents = "---\nstatus: open\n---\n\n# Overall Goal\n";
    assert!(!progress_file_has_finite_incantatem_true(contents).expect("read stop flag"));
}

#[test]
fn effective_potter_xmodel_enabled_is_runtime_or_progress_file() {
    let contents = "---\nstatus: open\nfinite_incantatem: false\n---\n\n# Overall Goal\n";
    assert!(!effective_potter_xmodel_enabled(contents, false).expect("read potter xmodel"));
    assert!(effective_potter_xmodel_enabled(contents, true).expect("read potter xmodel"));

    let contents = "---\nstatus: open\nfinite_incantatem: false\npotter.xmodel: true\n---\n\n# Overall Goal\n";
    assert!(effective_potter_xmodel_enabled(contents, false).expect("read potter xmodel"));
    assert!(progress_file_potter_xmodel_enabled(contents).expect("read potter xmodel"));
    assert!(effective_potter_xmodel_enabled("", true).is_err());
}

#[test]
fn progress_file_has_finite_incantatem_true_errors_when_front_matter_header_missing() {
    let err = progress_file_has_finite_incantatem_true("status: open\nfinite_incantatem: true\n")
        .expect_err("header");
    assert!(err.message().contains("missing YAML front matter delimiter `---` at top"));
}

#[test]
fn progress_file_has_finite_incantatem_true_errors_when_front_matter_footer_missing() {
    let err = progress_file_has_finite_incantatem_true(
        "---\nstatus: open\nfinite_incantatem: true\n\n# Overall Goal\n",
    )
    .expect_err("footer");
    assert!(err.message().contains("progress file YAML front matter missing closing `---`"));
}

#[test]
fn progress_file_has_finite_incantatem_true_errors_when_front_matter_value_invalid() {
    let err = progress_file_has_finite_incantatem_true(
        "---\nstatus: open\nfinite_incantatem: maybe\n---\n\n# Overall Goal\n",
    )
    .expect_err("value");
    assert!(err.message().contains(
        "progress file front matter key `finite_incantatem` has invalid boolean value"
    ));
}

#[test]
fn git_answers_are_trimmed() {
    let output = Some(GitOutput { success: true, stdout: b"  main\n".to_vec() });
    assert_eq!(git_stdout_trimmed(&output).as_deref(), Some("main"));
    let output = Some(GitOutput { success: true, stdout: b" \n".to_vec() });
    assert_eq!(git_stdout_trimmed(&output), None);
    let output = Some(GitOutput { success: false, stdout: b"main\n".to_vec() });
    assert_eq!(resolve_git_branch(&output), None);
    assert_eq!(resolve_git_commit(&output), "");
    assert_eq!(git_stdout_trimmed(&None), None);
    assert_eq!(git_text_trimmed(true, "\tx y "), Some("x y".to_string()));
    assert_eq!(git_text_trimmed(false, "x"), None);
}

#[test]
fn git_answers_that_are_no_text_are_patched() {
    let output = Some(GitOutput { success: true, stdout: vec![b'm', 0xff, b'n', b'\n'] });
    assert_eq!(git_stdout_trimmed(&output).as_deref(), Some("m\u{fffd}n"));
}

#[test]
fn git_is_asked_for_commit_and_branch() {
    assert_eq!(git_commit_args(), ["rev-parse", "HEAD"]);
    assert_eq!(git_branch_args(), ["symbolic-ref", "-q", "--short", "HEAD"]);
    let commit = Some(GitOutput { success: true, stdout: b"abc\n".to_vec() });
    assert_eq!(resolve_git_metadata(&commit, &None), ("abc".to_string(), String::new()));
}

#[test]
fn prompts_ask_for_another_model() {
    assert!(requests_potter_xmodel("a/potter:xmodelb"));
    assert!(!requests_potter_xmodel("/potter:x model"));
}

#[test]
fn templates_are_filled_in() {
    let main = render_project_main(
        "{{GIT_COMMIT}}|{{GIT_BRANCH}}|{{POTTER_XMODEL_FRONT_MATTER}}|{{USER_PROMPT}}",
        "/potter:xmodel go {{GIT_BRANCH}}",
        "a\\b",
        "say \"hi\"",
        true,
    );
    assert_eq!(main, "a\\\\b|say \\\"hi\\\"|potter.xmodel: true|go {{GIT_BRANCH}}");
    let main = render_project_main("[{{POTTER_XMODEL_FRONT_MATTER}}]", "", "", "", false);
    assert_eq!(main, "[]");
}

#[test]
fn what_a_setup_records_is_read_back() {
    for (commit, branch) in [("abc123", "main"), ("", ""), ("a\\b\"c", "feature/\"x\"#1")] {
        let (_, started, contents) =
            init_project("do /potter:xmodel it", git(commit), git(branch), 0);
        assert_eq!(started, commit);
        assert_eq!(progress_file_git_commit_start(&contents).expect("commit"), commit);
        let expected = if branch.is_empty() { None } else { Some(branch.to_string()) };
        assert_eq!(progress_file_git_branch(&contents).expect("branch"), expected);
        assert!(progress_file_potter_xmodel_enabled(&contents).expect("front matter"));
    }
}

#[test]
fn recorded_values_read_back_from_a_template_with_carriage_returns() {
    let template = TEMPLATE.replace('\n', "\r\n");
    let contents = render_project_main(&template, "do it", "abc123", "main", true);
    assert_eq!(progress_file_git_commit_start(&contents).expect("commit"), "abc123");
    assert_eq!(
        progress_file_git_branch(&contents).expect("branch"),
        Some("main".to_string())
    );
    assert!(progress_file_potter_xmodel_enabled(&contents).expect("front matter"));
}

#[test]
fn a_flag_that_is_missing_is_added_where_it_is_read() {
    for value in [true, false] {
        for contents in [
            "---\nstatus: open\n---\nbody\n",
            "---\n---\n",
            "---\n  ---\nfinite_incantatem: true\n---\n",
            "---\r\nstatus: open\r\n  ---\r\nbody",
            "---\nfinite_incantatem: true # done\n---\n",
        ] {
            let updated = set_progress_file_finite_incantatem(contents, value).expect("set");
            let after = updated.unwrap_or_else(|| contents.to_string());
            let read = progress_file_has_finite_incantatem_true(&after).expect("read");
            assert_eq!(read, value, "{contents:?}");
            let again = set_progress_file_finite_incantatem(&after, value).expect("set again");
            assert_eq!(again, None, "{contents:?}");
        }
    }
    let updated = set_progress_file_finite_incantatem("---\nstatus: open\n---\nbody\n", true);
    let expected = "---\nstatus: open\nfinite_incantatem: true\n---\nbody\n".to_string();
    assert_eq!(updated.expect("set"), Some(expected));
    for broken in ["", "status: open\n", "---\nstatus: open\n"] {
        assert!(set_progress_file_finite_incantatem(broken, true).is_err());
    }
}

#[test]
fn readers_refuse_broken_delimiters() {
    for (broken, message) in [
        ("", "progress file is empty"),
        ("x\n", "progress file missing YAML front matter delimiter `---` at top"),
        ("---\ngit_commit: a\n", "progress file YAML front matter missing closing `---`"),
    ] {
        let error = progress_file_git_commit_start(broken).expect_err("broken");
        assert_eq!(error.message(), message);
        assert_eq!(progress_file_short_title(broken).expect_err("broken").message(), message);
        assert_eq!(progress_file_git_branch(broken).expect_err("broken").message(), message);
    }
}
