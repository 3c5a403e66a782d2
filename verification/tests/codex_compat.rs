use codex_potter::codex_compat::actual_kind_label;
use codex_potter::codex_compat::canonicalize_failure;
use codex_potter::codex_compat::check_codex_home;
use codex_potter::codex_compat::codex_compat_entries;
use codex_potter::codex_compat::codex_compat_home_parts;
use codex_potter::codex_compat::expected_kind_label;
use codex_potter::codex_compat::resolve_real_codex_home_from_env;
use codex_potter::codex_compat::validate_target_kind;
use codex_potter::codex_compat::CodexCompatEntryKind;
use codex_potter::codex_compat::CodexHomeChoice;
use codex_potter::codex_compat::CodexHomeInspection;
use codex_potter::codex_compat::EntryFacts;
use codex_potter::codex_compat::Inspection;
use codex_potter::codex_compat::LinkAction;
use codex_potter::codex_compat::LinkInput;
use codex_potter::codex_compat::LinkPlatform;
use codex_potter::codex_compat::LinkTask;
use codex_potter::compat_home::HomeAction;
use codex_potter::compat_home::HomeInput;
use codex_potter::compat_home::HomeTask;
use codex_potter::codex_compat::DEFAULT_CODEX_HOME;

const FILE: EntryFacts = EntryFacts { is_file: true, is_dir: false, is_symlink: false };
const DIR: EntryFacts = EntryFacts { is_file: false, is_dir: true, is_symlink: false };
const LINK: EntryFacts = EntryFacts { is_file: false, is_dir: false, is_symlink: true };

/// An entry in the place of a link.
#[derive(Debug, Clone, Copy, PartialEq)]
enum Place {
    Empty,
    Link { to_target: bool },
    Entry(EntryFacts),
}

/// Makes a link in a world of two paths, and says how it went, and what was removed.
fn run(kind: CodexCompatEntryKind, target: Option<EntryFacts>, place: &mut Place) -> (Result<(), String>, Vec<bool>) {
    let (mut task, mut action) =
        LinkTask::ensure_symlink("l".to_string(), "t".to_string(), kind, false, LinkPlatform::Unix);
    let mut removed: Vec<bool> = Vec::new();
    let found = |facts: Option<EntryFacts>| match facts {
        Some(facts) => Inspection::Found(facts),
        None => Inspection::NotFound,
    };
    loop {
        let input = match action {
            LinkAction::InspectTarget => LinkInput::Target(found(target)),
            LinkAction::InspectLink => LinkInput::Link(match *place {
                Place::Empty => Inspection::NotFound,
                Place::Link { .. } => Inspection::Found(LINK),
                Place::Entry(facts) => Inspection::Found(facts),
            }),
            LinkAction::ReadLink => {
                LinkInput::Points(Some(*place == Place::Link { to_target: true }))
            }
            LinkAction::InspectResolved => LinkInput::Resolved {
                target_exists: target.is_some(),
                link_leads_to: found(target),
            },
            LinkAction::Remove { directory } => {
                removed.push(directory);
                *place = Place::Empty;
                LinkInput::Removed(true)
            }
            LinkAction::Create => {
                *place = Place::Link { to_target: true };
                LinkInput::Created(true)
            }
            LinkAction::Done => return (Ok(()), removed),
            LinkAction::Failed { message } => return (Err(message), removed),
        };
        action = task.step(input);
    }
}

#[test]
fn ensures_codex_compat_home_and_links() {
    for entry in codex_compat_entries() {
        let target = match entry.kind {
            CodexCompatEntryKind::File => FILE,
            CodexCompatEntryKind::Directory => DIR,
        };
        let mut place = Place::Empty;
        assert_eq!(run(entry.kind, Some(target), &mut place), (Ok(()), Vec::new()));
        assert_eq!(place, Place::Link { to_target: true });
        assert_eq!(run(entry.kind, Some(target), &mut place), (Ok(()), Vec::new()));
        assert_eq!(place, Place::Link { to_target: true });
        // Missing targets leave the link in place, too.
        assert!(run(entry.kind, None, &mut place).0.is_ok());
        assert_eq!(place, Place::Link { to_target: true });
    }
}

#[test]
fn ensures_codex_compat_home_repairs_stale_entries() {
    for entry in codex_compat_entries() {
        let (target, directory) = match entry.kind {
            CodexCompatEntryKind::File => (FILE, false),
            CodexCompatEntryKind::Directory => (DIR, true),
        };
        let mut place = Place::Link { to_target: false };
        assert_eq!(run(entry.kind, Some(target), &mut place), (Ok(()), vec![directory]));
        assert_eq!(place, Place::Link { to_target: true });
        let mut place = Place::Entry(DIR);
        assert_eq!(run(entry.kind, Some(target), &mut place), (Ok(()), vec![true]));
        assert_eq!(place, Place::Link { to_target: true });
    }
}

#[test]
fn resolve_real_codex_home_falls_back_to_dot_codex() {
    assert_eq!(resolve_real_codex_home_from_env(None), CodexHomeChoice::Default);
    assert_eq!(DEFAULT_CODEX_HOME, ".codex");
    assert_eq!(resolve_real_codex_home_from_env(Some("")), CodexHomeChoice::Default);
}

#[test]
fn resolve_real_codex_home_uses_env_path() {
    assert_eq!(resolve_real_codex_home_from_env(Some("/opt/codex")), CodexHomeChoice::FromEnv);
    assert_eq!(check_codex_home("/opt/codex", &CodexHomeInspection::Found { is_dir: true }), Ok(()));
    assert_eq!(
        check_codex_home("a\"b", &CodexHomeInspection::NotFound),
        Err("CODEX_HOME points to \"a\\\"b\", but that path does not exist".to_string())
    );
    assert_eq!(
        check_codex_home("f", &CodexHomeInspection::Found { is_dir: false }),
        Err("CODEX_HOME points to \"f\", but that path is not a directory".to_string())
    );
    assert_eq!(
        check_codex_home("f", &CodexHomeInspection::Failed { error: "denied".to_string() }),
        Err("failed to read CODEX_HOME \"f\": denied".to_string())
    );
    assert_eq!(
        canonicalize_failure("f", "denied"),
        "failed to canonicalize CODEX_HOME \"f\": denied"
    );
}

#[test]
fn targets_of_the_wrong_kind_are_refused() {
    let special = EntryFacts { is_file: false, is_dir: false, is_symlink: false };
    assert_eq!(
        validate_target_kind("t", CodexCompatEntryKind::File, Inspection::Found(DIR)),
        Err("expected t to be a file, but found a directory".to_string())
    );
    assert_eq!(
        validate_target_kind("t", CodexCompatEntryKind::Directory, Inspection::Found(special)),
        Err("expected t to be a directory, but found a special entry".to_string())
    );
    assert_eq!(
        validate_target_kind("t", CodexCompatEntryKind::File, Inspection::NotFound),
        Ok(())
    );
    assert_eq!(
        validate_target_kind("t", CodexCompatEntryKind::File, Inspection::Failed),
        Err("read target metadata t".to_string())
    );
    let mut place = Place::Entry(FILE);
    let (result, removed) = run(CodexCompatEntryKind::Directory, Some(FILE), &mut place);
    assert!(result.is_err());
    assert!(removed.is_empty());
    assert_eq!(place, Place::Entry(FILE));
}

#[test]
fn a_link_to_itself_is_left_alone() {
    let (_, action) = LinkTask::ensure_symlink(
        "p".to_string(),
        "p".to_string(),
        CodexCompatEntryKind::File,
        true,
        LinkPlatform::Unix,
    );
    assert!(matches!(action, LinkAction::Done));
}

#[test]
fn failed_steps_are_named() {
    let start = || {
        LinkTask::ensure_symlink(
            "l".to_string(),
            "t".to_string(),
            CodexCompatEntryKind::File,
            false,
            LinkPlatform::Unix,
        )
        .0
    };
    let message = |action: LinkAction| match action {
        LinkAction::Failed { message } => message,
        other => panic!("expected a failure, got {other:?}"),
    };
    let mut task = start();
    task.step(LinkInput::Target(Inspection::NotFound));
    assert_eq!(
        message(task.step(LinkInput::Link(Inspection::Failed))),
        "inspect existing entry l"
    );
    let mut task = start();
    task.step(LinkInput::Target(Inspection::NotFound));
    task.step(LinkInput::Link(Inspection::Found(LINK)));
    assert_eq!(message(task.step(LinkInput::Points(None))), "read symlink l");
    let mut task = start();
    task.step(LinkInput::Target(Inspection::NotFound));
    task.step(LinkInput::Link(Inspection::Found(FILE)));
    assert_eq!(message(task.step(LinkInput::Removed(false))), "remove entry l");
    let mut task = start();
    task.step(LinkInput::Target(Inspection::NotFound));
    task.step(LinkInput::Link(Inspection::Found(DIR)));
    assert_eq!(message(task.step(LinkInput::Removed(false))), "remove directory l");
    let mut task = start();
    task.step(LinkInput::Target(Inspection::NotFound));
    task.step(LinkInput::Link(Inspection::NotFound));
    assert_eq!(message(task.step(LinkInput::Created(false))), "create symlink l");
}

#[test]
fn entries_and_kinds_have_names() {
    let names: Vec<&str> = codex_compat_entries().iter().map(|e| e.name).collect();
    assert_eq!(names, ["AGENTS.md", "config.toml", "auth.json", "agents", "skills", "rules"]);
    assert_eq!(codex_compat_home_parts(), [".codexpotter", "codex-compat"]);
    assert_eq!(expected_kind_label(CodexCompatEntryKind::File), "file");
    assert_eq!(expected_kind_label(CodexCompatEntryKind::Directory), "directory");
    assert_eq!(actual_kind_label(FILE), "file");
    assert_eq!(actual_kind_label(DIR), "directory");
    assert_eq!(actual_kind_label(LINK), "special entry");
    assert!(CodexCompatEntryKind::File.matches(FILE));
    assert!(!CodexCompatEntryKind::Directory.matches(FILE));
}

#[test]
fn platforms_differ_in_their_links() {
    let fail = |kind: CodexCompatEntryKind, platform: LinkPlatform| {
        let (mut task, _) =
            LinkTask::ensure_symlink("l".to_string(), "t".to_string(), kind, false, platform);
        task.step(LinkInput::Target(Inspection::NotFound));
        let mut action = task.step(LinkInput::Link(Inspection::NotFound));
        if matches!(action, LinkAction::Create) {
            action = task.step(LinkInput::Created(false));
        }
        match action {
            LinkAction::Failed { message } => message,
            other => panic!("expected a failure, got {other:?}"),
        }
    };
    let file = CodexCompatEntryKind::File;
    let directory = CodexCompatEntryKind::Directory;
    assert_eq!(fail(file, LinkPlatform::Unix), "create symlink l");
    assert_eq!(fail(directory, LinkPlatform::Unix), "create symlink l");
    assert_eq!(fail(file, LinkPlatform::Windows), "create file symlink l");
    assert_eq!(fail(directory, LinkPlatform::Windows), "create directory symlink l");
    let unsupported = "symlinks are not supported on this platform";
    assert_eq!(fail(file, LinkPlatform::Other), unsupported);
}

/// Sets the home up in a world of six links, and says how it went.
fn set_home_up(places: &mut [Place]) -> Result<Vec<String>, String> {
    let (mut task, mut action) =
        HomeTask::ensure_codex_compat_home("home".to_string(), LinkPlatform::Unix);
    let mut made: Vec<String> = Vec::new();
    let mut index: usize = 0;
    let mut target = FILE;
    loop {
        let input = match action {
            HomeAction::CreateDir => HomeInput::Created(true),
            HomeAction::Locate { entry } => {
                index = codex_compat_entries().iter().position(|e| *e == entry).expect("entry");
                target = match entry.kind {
                    CodexCompatEntryKind::File => FILE,
                    CodexCompatEntryKind::Directory => DIR,
                };
                HomeInput::Located {
                    link_path: format!("home/{}", entry.name),
                    target_path: format!("real/{}", entry.name),
                    same_path: false,
                }
            }
            HomeAction::Link { action } => HomeInput::Link(match action {
                LinkAction::InspectTarget => LinkInput::Target(Inspection::Found(target)),
                LinkAction::InspectLink => LinkInput::Link(match places[index] {
                    Place::Empty => Inspection::NotFound,
                    Place::Link { .. } => Inspection::Found(LINK),
                    Place::Entry(facts) => Inspection::Found(facts),
                }),
                LinkAction::ReadLink => {
                    LinkInput::Points(Some(places[index] == Place::Link { to_target: true }))
                }
                LinkAction::InspectResolved => LinkInput::Resolved {
                    target_exists: true,
                    link_leads_to: Inspection::Found(target),
                },
                LinkAction::Remove { .. } => {
                    places[index] = Place::Empty;
                    LinkInput::Removed(true)
                }
                _ => {
                    places[index] = Place::Link { to_target: true };
                    made.push(codex_compat_entries()[index].name.to_string());
                    LinkInput::Created(true)
                }
            }),
            HomeAction::Done => return Ok(made),
            HomeAction::Failed { message } => return Err(message),
        };
        (task, action) = task.step(input);
    }
}

#[test]
fn a_home_has_all_its_links_and_keeps_them() {
    let mut places = [
        Place::Empty,
        Place::Link { to_target: false },
        Place::Link { to_target: true },
        Place::Entry(DIR),
        Place::Entry(FILE),
        Place::Empty,
    ];
    let made = set_home_up(&mut places).expect("home");
    assert_eq!(made, ["AGENTS.md", "config.toml", "agents", "skills", "rules"]);
    assert_eq!(places, [Place::Link { to_target: true }; 6]);
    assert_eq!(set_home_up(&mut places).expect("again"), Vec::<String>::new());
    assert_eq!(places, [Place::Link { to_target: true }; 6]);
}

#[test]
fn a_home_can_fail() {
    let start = || HomeTask::ensure_codex_compat_home("home".to_string(), LinkPlatform::Unix).0;
    let (_, action) = start().step(HomeInput::Created(false));
    let HomeAction::Failed { message } = action else {
        panic!("expected a failure");
    };
    assert_eq!(message, "create directory home");
    let (task, _) = start().step(HomeInput::Created(true));
    let (task, _) = task.step(HomeInput::Located {
        link_path: "l".to_string(),
        target_path: "t".to_string(),
        same_path: false,
    });
    let (_, action) = task.step(HomeInput::Link(LinkInput::Target(Inspection::Found(DIR))));
    let HomeAction::Failed { message } = action else {
        panic!("expected a failure");
    };
    assert_eq!(message, "expected t to be a file, but found a directory");
}
