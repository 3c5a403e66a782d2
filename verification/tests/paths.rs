use codex_potter::paths::derive_resume_project_path;
use codex_potter::paths::derive_resume_project_path_for_note;
use codex_potter::paths::derive_resume_project_path_from_project_dir;
use codex_potter::paths::name_left_behind;
use codex_potter::paths::resume_path_for_note_of_parts;
use codex_potter::paths::resume_path_of_progress_file_parts;
use codex_potter::paths::resume_path_of_project_dir_parts;
use codex_potter::paths::PathPart;

fn normal(names: &[&str]) -> Vec<PathPart> {
    names.iter().map(|n| PathPart::Normal(n.to_string())).collect()
}

#[test]
fn derive_resume_project_path_from_project_dir_strips_projects_root() {
    assert_eq!(
        derive_resume_project_path_from_project_dir(".codexpotter/projects/2026/03/01/6"),
        Some("2026/03/01/6".to_string())
    );
}

#[test]
fn derive_resume_project_path_from_project_dir_returns_none_when_unexpected() {
    assert_eq!(derive_resume_project_path_from_project_dir("not-a-project-dir"), None);
}

#[test]
fn derive_resume_project_path_for_note_keeps_short_form() {
    assert_eq!(
        derive_resume_project_path_for_note("2026/02/01/1", "2026/02/01/1"),
        "2026/02/01/1"
    );
}

#[test]
fn derive_resume_project_path_for_note_strips_absolute_codexpotter_prefix() {
    assert_eq!(
        derive_resume_project_path_for_note(
            "/tmp/work/.codexpotter/projects/2026/02/01/1/MAIN.md",
            "unused"
        ),
        "2026/02/01/1"
    );
}

#[test]
fn project_directories_need_a_project() {
    assert_eq!(derive_resume_project_path_from_project_dir(".codexpotter/projects"), None);
    assert_eq!(derive_resume_project_path_from_project_dir("/.codexpotter/projects/1"), None);
    assert_eq!(derive_resume_project_path_from_project_dir(""), None);
    assert_eq!(
        derive_resume_project_path_from_project_dir(".codexpotter//projects/./a/"),
        Some("a".to_string())
    );
}

#[test]
fn notes_use_the_last_projects_directory() {
    assert_eq!(
        derive_resume_project_path_for_note(
            "/a/.codexpotter/projects/b/.codexpotter/projects/c",
            "f"
        ),
        "c"
    );
    assert_eq!(derive_resume_project_path_for_note("/a/.codexpotter/other/c", "f"), "f");
    assert_eq!(derive_resume_project_path_for_note("/a/.codexpotter/projects", "f"), "f");
    assert_eq!(derive_resume_project_path_for_note("MAIN.md", "~/MAIN.md"), "~/MAIN.md");
}

#[test]
fn summaries_use_the_first_projects_directory() {
    assert_eq!(
        derive_resume_project_path(".codexpotter/projects/2026/03/07/9/MAIN.md").as_deref(),
        Some("2026/03/07/9")
    );
    assert_eq!(
        derive_resume_project_path("/a/.codexpotter/projects/b/.codexpotter/projects/c").as_deref(),
        Some("b/.codexpotter/projects/c")
    );
    assert_eq!(derive_resume_project_path("/a/.codexpotter/projects/MAIN.md"), None);
    assert_eq!(derive_resume_project_path("/elsewhere/MAIN.md"), None);
}

#[test]
fn components_decide() {
    let relative = normal(&[".codexpotter", "projects", "2026", "1"]);
    assert_eq!(resume_path_of_project_dir_parts(&relative).as_deref(), Some("2026/1"));
    let mut absolute = vec![PathPart::RootDir];
    absolute.extend(normal(&["w", ".codexpotter", "projects", "2026", "1", "MAIN.md"]));
    assert_eq!(resume_path_of_project_dir_parts(&absolute), None);
    assert_eq!(resume_path_of_progress_file_parts(&absolute).as_deref(), Some("2026/1"));
    assert_eq!(resume_path_for_note_of_parts(&absolute, "f"), "2026/1");
    let mut parent = normal(&[".codexpotter", "projects", "a"]);
    parent.push(PathPart::ParentDir);
    parent.extend(normal(&["b"]));
    assert_eq!(resume_path_of_project_dir_parts(&parent).as_deref(), Some("a/b"));
    let other = vec![PathPart::CurDir, PathPart::Prefix];
    assert_eq!(resume_path_for_note_of_parts(&other, "f"), "f");
}

#[test]
fn projects_left_behind_are_named() {
    let project = ".codexpotter/projects/2026/02/01/1";
    let file = ".codexpotter/projects/2026/02/01/1/MAIN.md";
    assert_eq!(name_left_behind(project, false, "~/x"), "2026/02/01/1");
    assert_eq!(name_left_behind(file, true, "~/x"), "2026/02/01/1");
    assert_eq!(name_left_behind("somewhere/1", false, "~/x"), "somewhere/1");
    assert_eq!(name_left_behind("somewhere/1", true, "~/x"), "~/x");
}

#[test]
fn colons_in_names_are_kept() {
    let project = ".codexpotter/projects/2026/02/01/a:b";
    let short = Some("2026/02/01/a:b".to_string());
    assert_eq!(derive_resume_project_path_from_project_dir(project), short);
    assert_eq!(derive_resume_project_path(&format!("{project}/MAIN.md")), short);
}
