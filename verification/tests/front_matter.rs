use codex_potter::front_matter::front_matter_bool;
use codex_potter::front_matter::front_matter_string;
use codex_potter::front_matter::put_front_matter_bool;
use codex_potter::front_matter::set_front_matter_bool;
use codex_potter::front_matter::strip_yaml_inline_comment;
use codex_potter::front_matter::unquote_yaml_scalar;
use codex_potter::front_matter::yaml_escape_double_quoted;

#[test]
fn flags_are_read_in_many_spellings() {
    for value in ["true", "TRUE", "\"true\"", "'True'", "true # really", "  true  ", "\" true \""] {
        let contents = format!("---\nkey: {value}\n---\n");
        assert_eq!(front_matter_bool(&contents, "key").expect("flag"), Some(true), "{value}");
    }
    for value in ["false", "False", "'false' # no"] {
        let contents = format!("---\nkey: {value}\n---\n");
        assert_eq!(front_matter_bool(&contents, "key").expect("flag"), Some(false), "{value}");
    }
}

#[test]
fn first_entry_of_a_flag_counts() {
    let contents = "---\n# key: maybe\nother\nkey: false\nkey: nonsense\n---\nkey: true\n";
    assert_eq!(front_matter_bool(contents, "key").expect("flag"), Some(false));
    assert_eq!(front_matter_bool(contents, "other").expect("flag"), None);
}

#[test]
fn broken_front_matter_is_refused() {
    let cases = [
        ("", "progress file is empty"),
        ("key: true\n", "progress file missing YAML front matter delimiter `---` at top"),
        ("---\nkey: true\n", "progress file YAML front matter missing closing `---`"),
        ("---\nkey:\n---\n", "progress file front matter key `key` has an empty value"),
        ("---\nkey: # none\n---\n", "progress file front matter key `key` has an empty value"),
        (
            "---\nkey: yes\n---\n",
            "progress file front matter key `key` has invalid boolean value `yes`",
        ),
    ];
    for (contents, message) in cases {
        let error = front_matter_bool(contents, "key").expect_err("refused");
        assert_eq!(error.message(), message);
    }
}

#[test]
fn setting_a_flag_keeps_the_rest() {
    let contents = "---\nstatus: open\nkey: true # keep me\n---\n\n# Goal\nkey: true\n";
    let updated = set_front_matter_bool(contents, "key", false).expect("set");
    assert_eq!(
        updated,
        "---\nstatus: open\nkey: false # keep me\n---\n\n# Goal\nkey: true\n"
    );
    assert_eq!(front_matter_bool(&updated, "key").expect("flag"), Some(false));
    assert_eq!(front_matter_string(&updated, "status").as_deref(), Some("open"));
    assert_eq!(set_front_matter_bool(&updated, "key", false).expect("again"), updated);
}

#[test]
fn setting_a_flag_normalizes_line_ends_and_trailing_space() {
    let contents = "---  \r\nstatus: open  \r\nkey: true\r\n---\r\nbody  \r\nlast";
    let updated = set_front_matter_bool(contents, "key", false).expect("set");
    assert_eq!(updated, "---\nstatus: open\nkey: false\n---\nbody  \nlast\n");
}

#[test]
fn setting_the_lines_of_a_flag_adds_none() {
    let contents = "---\nstatus: open\n---\nbody\n";
    assert_eq!(set_front_matter_bool(contents, "key", true).expect("set"), contents);
}

#[test]
fn setting_a_flag_refuses_broken_front_matter() {
    let error = set_front_matter_bool("", "key", true).expect_err("empty");
    assert_eq!(error.message(), "progress file is empty");
    let error = set_front_matter_bool("x\n", "key", true).expect_err("header");
    assert_eq!(
        error.message(),
        "progress file missing YAML front matter delimiter `---` at top"
    );
    let error = set_front_matter_bool("---\n", "key", true).expect_err("footer");
    assert_eq!(error.message(), "progress file YAML front matter missing closing `---`");
}

#[test]
fn strings_are_read_without_quotes_and_comments() {
    let contents = "---\na: plain text # note\nb: \"say \\\"hi\\\" # not a note\"\nc: 'it''s'\nd:\n---\n";
    assert_eq!(front_matter_string(contents, "a").as_deref(), Some("plain text"));
    assert_eq!(front_matter_string(contents, "b").as_deref(), Some("say \"hi\" # not a note"));
    assert_eq!(front_matter_string(contents, "c").as_deref(), Some("it's"));
    assert_eq!(front_matter_string(contents, "d").as_deref(), Some(""));
    assert_eq!(front_matter_string(contents, "e"), None);
    assert_eq!(front_matter_string("a: 1\n", "a"), None);
    assert_eq!(front_matter_string("", "a"), None);
    assert_eq!(front_matter_string("---\na: 1", "a").as_deref(), Some("1"));
}

#[test]
fn comments_end_a_value() {
    assert_eq!(strip_yaml_inline_comment("value # note"), "value");
    assert_eq!(strip_yaml_inline_comment("a#b"), "a#b");
    assert_eq!(strip_yaml_inline_comment("# all"), "");
    assert_eq!(strip_yaml_inline_comment("\"a # b\" # c"), "\"a # b\"");
    assert_eq!(strip_yaml_inline_comment("'a # b'  "), "'a # b'");
}

#[test]
fn quotes_and_escapes_are_undone() {
    assert_eq!(yaml_escape_double_quoted("a\\b\"c"), "a\\\\b\\\"c");
    let quoted = format!("\"{}\"", yaml_escape_double_quoted("say \"hi\""));
    assert_eq!(unquote_yaml_scalar(&quoted), "say \"hi\"");
    assert_eq!(unquote_yaml_scalar("  plain "), "plain");
    assert_eq!(unquote_yaml_scalar("\""), "\"");
    assert_eq!(unquote_yaml_scalar("'a''b'"), "a'b");
    assert_eq!(unquote_yaml_scalar("\"\""), "");
}

#[test]
fn of_two_updates_the_last_one_counts() {
    let contents = "---\na: 1\nkey: false # why\nkey:\n---\nbody  \n\nkey: x\n";
    for first in [true, false] {
        for last in [true, false] {
            let mid = set_front_matter_bool(contents, "key", first).expect("set");
            let twice = set_front_matter_bool(&mid, "key", last).expect("set again");
            let once = set_front_matter_bool(contents, "key", last).expect("set once");
            assert_eq!(twice, once);
        }
    }
    let set = set_front_matter_bool(contents, "key", true).expect("set");
    assert_eq!(set, "---\na: 1\nkey: true # why\nkey: true\n---\nbody  \n\nkey: x\n");
}

#[test]
fn of_two_settings_the_last_one_counts() {
    for contents in ["---\na: 1\n---\nbody\n", "---\nkey: true\n---\n", "---\n ---\n---\n"] {
        for first in [true, false] {
            for last in [true, false] {
                let mid = put_front_matter_bool(contents, "key", first).expect("set");
                assert_eq!(front_matter_bool(&mid, "key").expect("read"), Some(first));
                let twice = put_front_matter_bool(&mid, "key", last).expect("set again");
                assert_eq!(twice, put_front_matter_bool(contents, "key", last).expect("once"));
                let other = front_matter_string(contents, "a");
                assert_eq!(front_matter_string(&mid, "a"), other);
            }
        }
    }
}
