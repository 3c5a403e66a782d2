//! Project paths, component by component, and the short form in which a project is named to the
//! user.
//!
//! A project lives in `.codexpotter/projects/YYYY/MM/DD/N`; its short form is what follows on
//! `projects`.

use vstd::prelude::*;

use crate::text;

verus! {

/// A component of a path.
#[derive(Debug, Clone, PartialEq, Eq)]
pub enum PathPart {
    Prefix,
    RootDir,
    CurDir,
    ParentDir,
    Normal(String),
}

/// The mathematical counterpart of [`PathPart`].
pub enum Part {
    Prefix,
    RootDir,
    CurDir,
    ParentDir,
    Normal(Seq<char>),
}

impl View for PathPart {
    type V = Part;

    open spec fn view(&self) -> Part {
        match *self {
            PathPart::Prefix => Part::Prefix,
            PathPart::RootDir => Part::RootDir,
            PathPart::CurDir => Part::CurDir,
            PathPart::ParentDir => Part::ParentDir,
            PathPart::Normal(s) => Part::Normal(s@),
        }
    }
}

/// The components of a list, mathematically.
pub open spec fn part_views(v: Seq<PathPart>) -> Seq<Part> {
    Seq::new(v.len(), |i: int| v[i]@)
}

/// The path is written with `/` alone and does not begin with a drive or a share, so that it means
/// the same everywhere.
pub open spec fn is_portable(path: Seq<char>) -> bool {
    &&& forall|i: int| 0 <= i < path.len() ==> path[i] != '\\'
    &&& !(path.len() >= 2 && path[1] == ':')
    &&& !(path.len() >= 2 && path[0] == '/' && path[1] == '/')
}

/// The components of the pieces between the separators. Empty pieces count for nothing, and `.`
/// counts only at the very beginning.
pub open spec fn parts_of_pieces(pieces: Seq<Seq<char>>, at_start: bool) -> Seq<Part>
    decreases pieces.len(),
{
    if pieces.len() == 0 {
        seq![]
    } else {
        let rest = parts_of_pieces(pieces.skip(1), false);
        let piece = pieces[0];
        if piece.len() == 0 {
            rest
        } else if piece == seq!['.'] {
            if at_start {
                seq![Part::CurDir] + rest
            } else {
                rest
            }
        } else if piece == seq!['.', '.'] {
            seq![Part::ParentDir] + rest
        } else {
            seq![Part::Normal(piece)] + rest
        }
    }
}

/// The components of a path that is written with `/` alone.
pub open spec fn portable_parts(path: Seq<char>) -> Seq<Part> {
    (if path.len() > 0 && path[0] == '/' {
        seq![Part::RootDir]
    } else {
        seq![]
    }) + parts_of_pieces(text::split(path, '/'), true)
}

/// `std::path::Path::components`: the components of a path, one for one. Of a path that is written
/// with `/` alone, and that no platform takes to begin with a drive or a share, the components are
/// stated: repeated and trailing separators count for nothing, and neither does `.` but at the
/// beginning. Of other paths the components depend on the platform, and nothing is stated.
#[verifier::external_body]
pub(crate) fn components_of(path: &str) -> (r: Vec<PathPart>)
    ensures
        is_portable(path@) ==> part_views(r@) == portable_parts(path@),
{
    let mut parts = Vec::new();
    for component in std::path::Path::new(path).components() {
        parts.push(match component {
            std::path::Component::Prefix(_) => PathPart::Prefix,
            std::path::Component::RootDir => PathPart::RootDir,
            std::path::Component::CurDir => PathPart::CurDir,
            std::path::Component::ParentDir => PathPart::ParentDir,
            std::path::Component::Normal(name) => {
                PathPart::Normal(name.to_string_lossy().into_owned())
            }
        });
    }
    parts
}

/// The names among some components.
pub open spec fn names(parts: Seq<Part>) -> Seq<Seq<char>>
    decreases parts.len(),
{
    if parts.len() == 0 {
        seq![]
    } else {
        match parts.last() {
            Part::Normal(name) => names(parts.drop_last()).push(name),
            _ => names(parts.drop_last()),
        }
    }
}

/// The directory of a project, from the path of the directory or of the progress file in it.
pub open spec fn project_dir(parts: Seq<Part>) -> Seq<Part> {
    if parts.len() > 0 && parts.last() == Part::Normal("MAIN.md"@) {
        parts.drop_last()
    } else {
        parts
    }
}

/// Names as a short form, where there are any.
pub open spec fn short_form(names: Seq<Seq<char>>) -> Option<Seq<char>> {
    if names.len() == 0 {
        None
    } else {
        Some(text::join(names, "/"@))
    }
}

/// The short form of a project directory that is given relative to the working directory.
pub open spec fn short_form_of_relative(parts: Seq<Part>) -> Option<Seq<char>> {
    if parts.len() >= 2 && parts[0] == Part::Normal(".codexpotter"@) && parts[1] == Part::Normal(
        "projects"@,
    ) {
        short_form(names(parts.skip(2)))
    } else {
        None
    }
}

/// `.codexpotter` and `projects` stand at `i`.
pub open spec fn root_at(names: Seq<Seq<char>>, i: int) -> bool {
    0 <= i < names.len() - 1 && names[i] == ".codexpotter"@ && names[i + 1] == "projects"@
}

/// The first place at or after `i` where `.codexpotter` and `projects` stand; the number of names
/// when there is none.
pub open spec fn first_root(names: Seq<Seq<char>>, i: int) -> int
    decreases names.len() - i,
{
    if i >= names.len() {
        names.len() as int
    } else if root_at(names, i) {
        i
    } else {
        first_root(names, i + 1)
    }
}

/// The last place before `n` where `.codexpotter` stands; less than zero when there is none.
pub open spec fn last_codexpotter(names: Seq<Seq<char>>, n: int) -> int
    decreases n,
{
    if n <= 0 {
        -1
    } else if names[n - 1] == ".codexpotter"@ {
        n - 1
    } else {
        last_codexpotter(names, n - 1)
    }
}

/// The short form of a progress file, as the summary of a project shows it: what follows on the
/// first projects directory in its path.
pub open spec fn summary_form(parts: Seq<Part>) -> Option<Seq<char>> {
    let all = names(project_dir(parts));
    let i = first_root(all, 0);
    if i < all.len() {
        short_form(all.skip(i + 2))
    } else {
        None
    }
}

/// The short form of a project, as the note on how to resume it shows it: what follows on the
/// last projects directory in its path.
pub open spec fn note_form(parts: Seq<Part>) -> Option<Seq<char>> {
    let dir = project_dir(parts);
    match short_form_of_relative(dir) {
        Some(s) => Some(s),
        None => {
            let all = names(dir);
            let i = last_codexpotter(all, all.len() as int);
            if 0 <= i && root_at(all, i) {
                short_form(all.skip(i + 2))
            } else {
                None
            }
        },
    }
}

/// Whether a component is this name.
fn is_name(part: &PathPart, name: &str) -> (r: bool)
    ensures
        r == (part@ == Part::Normal(name@)),
{
    match part {
        PathPart::Normal(s) => text::same_str(s.as_str(), name),
        _ => false,
    }
}

/// [`names`] of the components in `from..n`.
fn names_of(parts: &Vec<PathPart>, from: usize, n: usize) -> (r: Vec<String>)
    requires
        from <= n <= parts.len(),
    ensures
        text::texts(r@) == names(part_views(parts@).subrange(from as int, n as int)),
{
    let mut r: Vec<String> = Vec::new();
    let ghost all = part_views(parts@).subrange(from as int, n as int);
    let mut i = from;
    assert(all.take(0) =~= Seq::<Part>::empty());
    assert(text::texts(r@) =~= names(all.take(0)));
    while i < n
        invariant
            from <= i <= n <= parts.len(),
            all == part_views(parts@).subrange(from as int, n as int),
            text::texts(r@) == names(all.take(i - from)),
        decreases n - i,
    {
        let ghost before = r@;
        proof {
            assert(all.take(i + 1 - from).drop_last() =~= all.take(i - from));
            assert(all.take(i + 1 - from).last() == parts@[i as int]@);
        }
        match &parts[i] {
            PathPart::Normal(s) => {
                r.push(s.clone());
                assert(text::texts(r@) =~= text::texts(before).push(s@));
            },
            _ => {},
        }
        i = i + 1;
    }
    assert(all.take(all.len() as int) =~= all);
    r
}

/// [`short_form`] of the names from `from` on.
fn short_form_of(all: &Vec<String>, from: usize) -> (r: Option<String>)
    requires
        from <= all.len(),
    ensures
        text::opt_text(r) == short_form(text::texts(all@).skip(from as int)),
{
    if from == all.len() {
        None
    } else {
        Some(text::join_from(all, from, "/"))
    }
}

/// The number of components of [`project_dir`].
fn project_dir_len(parts: &Vec<PathPart>) -> (r: usize)
    ensures
        r <= parts.len(),
        project_dir(part_views(parts@)) == part_views(parts@).take(r as int),
{
    let n = parts.len();
    proof {
        assert(part_views(parts@).take(n as int) =~= part_views(parts@));
    }
    if n > 0 && is_name(&parts[n - 1], "MAIN.md") {
        assert(part_views(parts@).drop_last() =~= part_views(parts@).take(n - 1));
        n - 1
    } else {
        n
    }
}

/// [`short_form_of_relative`] of the first `n` components.
fn short_form_of_relative_parts(parts: &Vec<PathPart>, n: usize) -> (r: Option<String>)
    requires
        n <= parts.len(),
    ensures
        text::opt_text(r) == short_form_of_relative(part_views(parts@).take(n as int)),
{
    let ghost dir = part_views(parts@).take(n as int);
    if n >= 2 && is_name(&parts[0], ".codexpotter") && is_name(&parts[1], "projects") {
        let rest = names_of(parts, 2, n);
        assert(part_views(parts@).subrange(2, n as int) =~= dir.skip(2));
        assert(text::texts(rest@).skip(0) =~= text::texts(rest@));
        short_form_of(&rest, 0)
    } else {
        None
    }
}

/// The short form of a project directory, from the components of its path.
pub fn resume_path_of_project_dir_parts(parts: &Vec<PathPart>) -> (r: Option<String>)
    ensures
        text::opt_text(r) == short_form_of_relative(part_views(parts@)),
{
    assert(part_views(parts@).take(parts@.len() as int) =~= part_views(parts@));
    short_form_of_relative_parts(parts, parts.len())
}

/// The short form of a project directory that is given relative to the working directory.
pub fn derive_resume_project_path_from_project_dir(project_dir: &str) -> (r: Option<String>)
    ensures
        exists|parts: Seq<Part>|
            text::opt_text(r) == #[trigger] short_form_of_relative(parts),
        is_portable(project_dir@) ==> text::opt_text(r) == short_form_of_relative(
            portable_parts(project_dir@),
        ),
{
    let parts = components_of(project_dir);
    resume_path_of_project_dir_parts(&parts)
}

/// The short form of a progress file, from the components of its path.
pub fn resume_path_of_progress_file_parts(parts: &Vec<PathPart>) -> (r: Option<String>)
    ensures
        text::opt_text(r) == summary_form(part_views(parts@)),
{
    let n = project_dir_len(parts);
    let all = names_of(parts, 0, n);
    let ghost dir = part_views(parts@).take(n as int);
    assert(part_views(parts@).subrange(0, n as int) =~= dir);
    let ghost texts = text::texts(all@);
    let mut i: usize = 0;
    while i < all.len()
        invariant
            i <= all.len(),
            texts == text::texts(all@),
            texts == names(dir),
            project_dir(part_views(parts@)) == dir,
            first_root(texts, 0) == first_root(texts, i as int),
        decreases all.len() - i,
    {
        if i + 1 < all.len() && text::same_str(all[i].as_str(), ".codexpotter") && text::same_str(
            all[i + 1].as_str(),
            "projects",
        ) {
            assert(root_at(texts, i as int));
            return short_form_of(&all, i + 2);
        }
        assert(!root_at(texts, i as int));
        i = i + 1;
    }
    None
}

/// The short form of a progress file.
pub fn derive_resume_project_path(progress_file: &str) -> (r: Option<String>)
    ensures
        exists|parts: Seq<Part>| text::opt_text(r) == #[trigger] summary_form(parts),
        is_portable(progress_file@) ==> text::opt_text(r) == summary_form(
            portable_parts(progress_file@),
        ),
{
    let parts = components_of(progress_file);
    resume_path_of_progress_file_parts(&parts)
}

/// The short form of a project for the note on how to resume it, from the components of its path;
/// `fallback` where there is none.
pub fn resume_path_for_note_of_parts(parts: &Vec<PathPart>, fallback: &str) -> (r: String)
    ensures
        r@ == (match note_form(part_views(parts@)) {
            Some(s) => s,
            None => fallback@,
        }),
{
    let n = project_dir_len(parts);
    match short_form_of_relative_parts(parts, n) {
        Some(s) => {
            return s;
        },
        None => {},
    }
    let all = names_of(parts, 0, n);
    let ghost dir = part_views(parts@).take(n as int);
    assert(part_views(parts@).subrange(0, n as int) =~= dir);
    let ghost texts = text::texts(all@);
    let mut i: usize = all.len();
    while i > 0
        invariant
            i <= all.len(),
            texts == text::texts(all@),
            texts == names(dir),
            project_dir(part_views(parts@)) == dir,
            short_form_of_relative(dir) is None,
            last_codexpotter(texts, texts.len() as int) == last_codexpotter(texts, i as int),
        decreases i,
    {
        if text::same_str(all[i - 1].as_str(), ".codexpotter") {
            if i < all.len() && text::same_str(all[i].as_str(), "projects") {
                assert(root_at(texts, i - 1));
                match short_form_of(&all, i + 1) {
                    Some(s) => {
                        return s;
                    },
                    None => {},
                }
            }
            return fallback.to_owned();
        }
        i = i - 1;
    }
    fallback.to_owned()
}

/// The short form of a project for the note on how to resume it; `fallback` where there is none.
pub fn derive_resume_project_path_for_note(project_path: &str, fallback: &str) -> (r: String)
    ensures
        exists|parts: Seq<Part>|
            r@ == (match #[trigger] note_form(parts) {
                Some(s) => s,
                None => fallback@,
            }),
        is_portable(project_path@) ==> r@ == (match note_form(portable_parts(project_path@)) {
            Some(s) => s,
            None => fallback@,
        }),
{
    let parts = components_of(project_path);
    resume_path_for_note_of_parts(&parts, fallback)
}

/// How a project that was left behind is named: by its short form, where it has one. Otherwise a
/// project that was resumed is named as it is `shown`, and one that was started by its directory.
pub open spec fn left_behind_name(
    parts: Seq<Part>,
    path: Seq<char>,
    resumed: bool,
    shown: Seq<char>,
) -> Seq<char> {
    let short = if resumed {
        note_form(parts)
    } else {
        short_form_of_relative(parts)
    };
    match short {
        Some(s) => s,
        None => if resumed {
            shown
        } else {
            path
        },
    }
}

/// How a project that was left behind is named in the note on how to resume it.
pub fn name_left_behind(project_path: &str, resumed: bool, shown: &str) -> (r: String)
    ensures
        exists|parts: Seq<Part>|
            r@ == #[trigger] left_behind_name(parts, project_path@, resumed, shown@),
        is_portable(project_path@) ==> r@ == left_behind_name(
            portable_parts(project_path@),
            project_path@,
            resumed,
            shown@,
        ),
{
    if resumed {
        let r = derive_resume_project_path_for_note(project_path, shown);
        proof {
            let parts = choose|parts: Seq<Part>|
                r@ == (match #[trigger] note_form(parts) {
                    Some(s) => s,
                    None => shown@,
                });
            assert(r@ == left_behind_name(parts, project_path@, resumed, shown@));
        }
        return r;
    }
    let short = derive_resume_project_path_from_project_dir(project_path);
    let ghost parts = choose|parts: Seq<Part>|
        text::opt_text(short) == #[trigger] short_form_of_relative(parts);
    let r = match short {
        Some(s) => s,
        None => project_path.to_owned(),
    };
    assert(r@ == left_behind_name(parts, project_path@, resumed, shown@));
    r
}

/// Names as components.
pub open spec fn normal_parts(ns: Seq<Seq<char>>) -> Seq<Part> {
    Seq::new(ns.len(), |i: int| Part::Normal(ns[i]))
}

/// The components of the progress file of a project: `below` is where the projects directory
/// stands, and `project` what names the project in it.
pub open spec fn progress_file_parts(below: Seq<Part>, project: Seq<Seq<char>>) -> Seq<Part> {
    below + seq![Part::Normal(".codexpotter"@), Part::Normal("projects"@)] + normal_parts(project)
        + seq![Part::Normal("MAIN.md"@)]
}

proof fn lemma_names_concat(a: Seq<Part>, b: Seq<Part>)
    ensures
        names(a + b) == names(a) + names(b),
    decreases b.len(),
{
    if b.len() == 0 {
        assert(a + b =~= a);
        assert(names(a) + names(b) =~= names(a));
    } else {
        lemma_names_concat(a, b.drop_last());
        assert((a + b).drop_last() =~= a + b.drop_last());
        assert(names(a + b) =~= names(a) + names(b));
    }
}

proof fn lemma_names_normal(ns: Seq<Seq<char>>)
    ensures
        names(normal_parts(ns)) == ns,
    decreases ns.len(),
{
    if ns.len() > 0 {
        lemma_names_normal(ns.drop_last());
        assert(normal_parts(ns).drop_last() =~= normal_parts(ns.drop_last()));
        assert(names(normal_parts(ns)) =~= ns);
    } else {
        assert(names(normal_parts(ns)) =~= ns);
    }
}

proof fn lemma_first_root(all: Seq<Seq<char>>, i: int, p: int)
    requires
        0 <= i <= p,
        root_at(all, p),
        forall|j: int| i <= j < p ==> #[trigger] all[j] != ".codexpotter"@,
    ensures
        first_root(all, i) == p,
    decreases p - i,
{
    if i < p {
        assert(all[i] != ".codexpotter"@);
        lemma_first_root(all, i + 1, p);
    }
}

proof fn lemma_last_codexpotter(all: Seq<Seq<char>>, n: int, p: int)
    requires
        0 <= p < n <= all.len(),
        all[p] == ".codexpotter"@,
        forall|j: int| p < j < n ==> #[trigger] all[j] != ".codexpotter"@,
    ensures
        last_codexpotter(all, n) == p,
    decreases n,
{
    if n - 1 > p {
        assert(all[n - 1] != ".codexpotter"@);
        lemma_last_codexpotter(all, n - 1, p);
    }
}

/// The summary and the note name a project alike: wherever its projects directory stands, the
/// short form is what names the project in it. (A name `.codexpotter` elsewhere in the path would
/// leave open which projects directory is meant.)
pub proof fn law_short_forms_agree(below: Seq<Part>, project: Seq<Seq<char>>)
    requires
        project.len() > 0,
        forall|j: int| 0 <= j < names(below).len() ==> #[trigger] names(below)[j]
            != ".codexpotter"@,
        forall|j: int| 0 <= j < project.len() ==> #[trigger] project[j] != ".codexpotter"@,
    ensures
        summary_form(progress_file_parts(below, project)) == Some(text::join(project, "/"@)),
        note_form(progress_file_parts(below, project)) == Some(text::join(project, "/"@)),
{
    let root = seq![Part::Normal(".codexpotter"@), Part::Normal("projects"@)];
    let parts = progress_file_parts(below, project);
    let dir = below + root + normal_parts(project);
    assert(parts.drop_last() =~= dir);
    assert(parts.last() == Part::Normal("MAIN.md"@));
    let root_names = seq![".codexpotter"@, "projects"@];
    assert(root =~= normal_parts(root_names));
    lemma_names_normal(root_names);
    lemma_names_normal(project);
    lemma_names_concat(below, root);
    lemma_names_concat(below + root, normal_parts(project));
    let all = names(dir);
    let p = names(below).len() as int;
    assert(all =~= names(below) + root_names + project);
    assert(all[p] == root_names[0] && all[p + 1] == root_names[1]);
    assert forall|j: int| 0 <= j < p implies #[trigger] all[j] != ".codexpotter"@ by {
        assert(all[j] == names(below)[j]);
    }
    reveal_strlit("projects");
    reveal_strlit(".codexpotter");
    assert forall|j: int| p < j < all.len() implies #[trigger] all[j] != ".codexpotter"@ by {
        if j == p + 1 {
            assert(all[j].len() != ".codexpotter"@.len());
        } else {
            assert(all[j] == project[j - p - 2]);
        }
    }
    lemma_first_root(all, 0, p);
    lemma_last_codexpotter(all, all.len() as int, p);
    assert(all.skip(p + 2) =~= project);
    if below.len() == 0 {
        assert(dir.skip(2) =~= normal_parts(project));
    } else {
        assert(dir[0] == below[0]);
        if dir.len() >= 2 && dir[0] == Part::Normal(".codexpotter"@) {
            lemma_names_first(below);
        }
    }
}

/// The first component is the first name, where it is a name.
proof fn lemma_names_first(parts: Seq<Part>)
    requires
        parts.len() > 0,
        parts[0] is Normal,
    ensures
        names(parts).len() > 0,
        names(parts)[0] == parts[0]->Normal_0,
{
    let first = seq![parts[0]];
    lemma_names_concat(first, parts.skip(1));
    assert(first + parts.skip(1) =~= parts);
    lemma_names_normal(seq![parts[0]->Normal_0]);
    assert(first =~= normal_parts(seq![parts[0]->Normal_0]));
}

/// The names among some components that are all names are those names, in order.
pub proof fn law_names_of_names(ns: Seq<Seq<char>>)
    ensures
        names(normal_parts(ns)) == ns,
{
    lemma_names_normal(ns);
}

/// A component that is no name does not count among the names, and one that is does, in its place.
pub proof fn law_names_in_order(a: Seq<Part>, b: Seq<Part>, name: Seq<char>)
    ensures
        names(a + b) == names(a) + names(b),
        names(a.push(Part::Normal(name))) == names(a).push(name),
        names(a.push(Part::ParentDir)) == names(a),
        names(a.push(Part::CurDir)) == names(a),
        names(a.push(Part::RootDir)) == names(a),
        names(a.push(Part::Prefix)) == names(a),
{
    lemma_names_concat(a, b);
    assert(a.push(Part::Normal(name)).drop_last() =~= a);
    assert(a.push(Part::ParentDir).drop_last() =~= a);
    assert(a.push(Part::CurDir).drop_last() =~= a);
    assert(a.push(Part::RootDir).drop_last() =~= a);
    assert(a.push(Part::Prefix).drop_last() =~= a);
}

/// A project directory has a short form exactly if it stands in the projects directory of the
/// working directory, and something names it there.
pub proof fn law_relative_short_form(parts: Seq<Part>)
    ensures
        short_form_of_relative(parts) is Some <==> {
            &&& parts.len() >= 2
            &&& parts[0] == Part::Normal(".codexpotter"@)
            &&& parts[1] == Part::Normal("projects"@)
            &&& names(parts.skip(2)).len() > 0
        },
        short_form_of_relative(parts) is Some ==> short_form_of_relative(parts) == Some(
            text::join(names(parts.skip(2)), "/"@),
        ),
{
}

/// The progress file stands for the directory that it is in, and any other path for itself.
pub proof fn law_project_dir(parts: Seq<Part>, last: Part)
    ensures
        project_dir(parts.push(Part::Normal("MAIN.md"@))) == parts,
        last != Part::Normal("MAIN.md"@) ==> project_dir(parts.push(last)) == parts.push(last),
        project_dir(Seq::empty()) == Seq::<Part>::empty(),
{
    assert(parts.push(Part::Normal("MAIN.md"@)).drop_last() =~= parts);
}

/// A path without a projects directory has no short form; the project that is left behind is then
/// named as it is shown if it was resumed, and by its path if not.
pub proof fn law_no_projects_directory_no_short_form(
    parts: Seq<Part>,
    path: Seq<char>,
    shown: Seq<char>,
)
    requires
        forall|j: int| 0 <= j < names(project_dir(parts)).len() ==> #[trigger] names(
            project_dir(parts),
        )[j] != ".codexpotter"@,
        forall|j: int| 0 <= j < parts.len() ==> #[trigger] parts[j] != Part::Normal(
            ".codexpotter"@,
        ),
    ensures
        summary_form(parts) is None,
        note_form(parts) is None,
        left_behind_name(parts, path, true, shown) == shown,
        left_behind_name(parts, path, false, shown) == path,
{
    let dir = project_dir(parts);
    let all = names(dir);
    lemma_no_root(all, 0);
    lemma_no_codexpotter(all, all.len() as int);
    if dir.len() > 0 {
        assert(dir[0] == parts[0]);
    }
    if parts.len() > 0 {
        assert(parts[0] != Part::Normal(".codexpotter"@));
    }
}

proof fn lemma_no_root(all: Seq<Seq<char>>, i: int)
    requires
        0 <= i,
        forall|j: int| 0 <= j < all.len() ==> #[trigger] all[j] != ".codexpotter"@,
    ensures
        first_root(all, i) >= all.len(),
    decreases all.len() - i,
{
    if i < all.len() {
        assert(all[i] != ".codexpotter"@);
        lemma_no_root(all, i + 1);
    }
}

proof fn lemma_no_codexpotter(all: Seq<Seq<char>>, n: int)
    requires
        n <= all.len(),
        forall|j: int| 0 <= j < all.len() ==> #[trigger] all[j] != ".codexpotter"@,
    ensures
        last_codexpotter(all, n) < 0,
    decreases n,
{
    if n > 0 {
        assert(all[n - 1] != ".codexpotter"@);
        lemma_no_codexpotter(all, n - 1);
    }
}

/// The summary goes by the first projects directory of a path, and the note by the last directory
/// `.codexpotter`, if the projects directory stands in it.
pub proof fn law_which_projects_directory(all: Seq<Seq<char>>, p: int)
    requires
        0 <= p < all.len(),
    ensures
        root_at(all, p) <==> p + 1 < all.len() && all[p] == ".codexpotter"@ && all[p + 1]
            == "projects"@,
        root_at(all, p) && (forall|j: int| 0 <= j < p ==> !#[trigger] root_at(all, j))
            ==> first_root(all, 0) == p,
        all[p] == ".codexpotter"@ && (forall|j: int|
            p < j < all.len() ==> #[trigger] all[j] != ".codexpotter"@) ==> last_codexpotter(
            all,
            all.len() as int,
        ) == p,
{
    if root_at(all, p) && (forall|j: int| 0 <= j < p ==> !#[trigger] root_at(all, j)) {
        lemma_first_root_of_roots(all, 0, p);
    }
    if all[p] == ".codexpotter"@ && (forall|j: int|
        p < j < all.len() ==> #[trigger] all[j] != ".codexpotter"@) {
        lemma_last_codexpotter(all, all.len() as int, p);
    }
}

proof fn lemma_first_root_of_roots(all: Seq<Seq<char>>, i: int, p: int)
    requires
        0 <= i <= p,
        root_at(all, p),
        forall|j: int| i <= j < p ==> !#[trigger] root_at(all, j),
    ensures
        first_root(all, i) == p,
    decreases p - i,
{
    if i < p {
        assert(!root_at(all, i));
        lemma_first_root_of_roots(all, i + 1, p);
    }
}

/// A piece that is empty, or a dot that is not at the beginning, does not count; two dots go up,
/// and every other piece is a name.
pub proof fn law_pieces(pieces: Seq<Seq<char>>, name: Seq<char>, at_start: bool)
    requires
        name.len() > 0,
        name != seq!['.'],
        name != seq!['.', '.'],
    ensures
        parts_of_pieces(seq![Seq::empty()] + pieces, at_start) == parts_of_pieces(pieces, false),
        parts_of_pieces(seq![seq!['.']] + pieces, false) == parts_of_pieces(pieces, false),
        parts_of_pieces(seq![seq!['.']] + pieces, true) == seq![Part::CurDir] + parts_of_pieces(
            pieces,
            false,
        ),
        parts_of_pieces(seq![seq!['.', '.']] + pieces, at_start) == seq![Part::ParentDir]
            + parts_of_pieces(pieces, false),
        parts_of_pieces(seq![name] + pieces, at_start) == seq![Part::Normal(name)]
            + parts_of_pieces(pieces, false),
{
    assert((seq![Seq::<char>::empty()] + pieces).skip(1) =~= pieces);
    assert((seq![seq!['.']] + pieces).skip(1) =~= pieces);
    assert((seq![seq!['.', '.']] + pieces).skip(1) =~= pieces);
    assert((seq![name] + pieces).skip(1) =~= pieces);
    assert(seq!['.', '.'].len() != seq!['.'].len());
}

/// A path without backslashes and colons that does not begin with two separators means the same
/// everywhere.
pub proof fn law_portable_paths(path: Seq<char>)
    requires
        forall|i: int| 0 <= i < path.len() ==> path[i] != '\\' && path[i] != ':',
        path.len() >= 2 && path[0] == '/' ==> path[1] != '/',
    ensures
        is_portable(path),
{
}

/// A project that is left behind is named by its short form, where it has one: one that was started
/// by the form below the working directory, and one that was resumed by that of the note; without
/// one, the first is named by its path, and the second as it is shown.
pub proof fn law_name_of_what_is_left_behind(
    parts: Seq<Part>,
    path: Seq<char>,
    shown: Seq<char>,
)
    ensures
        match short_form_of_relative(parts) {
            Some(s) => left_behind_name(parts, path, false, shown) == s,
            None => left_behind_name(parts, path, false, shown) == path,
        },
        match note_form(parts) {
            Some(s) => left_behind_name(parts, path, true, shown) == s,
            None => left_behind_name(parts, path, true, shown) == shown,
        },
{
}

/// The note goes by the form below the working directory, where there is one.
pub proof fn law_note_prefers_the_working_directory(parts: Seq<Part>)
    ensures
        short_form_of_relative(project_dir(parts)) is Some ==> note_form(parts)
            == short_form_of_relative(project_dir(parts)),
        note_form(parts) is Some && short_form_of_relative(project_dir(parts)) is None ==> {
            let all = names(project_dir(parts));
            let i = last_codexpotter(all, all.len() as int);
            &&& 0 <= i < all.len() - 1
            &&& all[i + 1] == "projects"@
            &&& note_form(parts) == Some(text::join(all.skip(i + 2), "/"@))
        },
        summary_form(parts) is Some ==> {
            let all = names(project_dir(parts));
            let i = first_root(all, 0);
            &&& i < all.len()
            &&& summary_form(parts) == Some(text::join(all.skip(i + 2), "/"@))
        },
{
}

/// A component is read, mathematically, as what it is, with its name.
pub proof fn law_part_is_read_as_it_is(part: PathPart)
    ensures
        match part {
            PathPart::Prefix => part@ is Prefix,
            PathPart::RootDir => part@ is RootDir,
            PathPart::CurDir => part@ is CurDir,
            PathPart::ParentDir => part@ is ParentDir,
            PathPart::Normal(s) => part@ is Normal && part@->Normal_0 == s@,
        },
{
}

/// A list of components has as many counterparts, each in its place.
pub proof fn law_every_part_has_its_place(v: Seq<PathPart>, i: int)
    requires
        0 <= i < v.len(),
    ensures
        part_views(v).len() == v.len(),
        part_views(v)[i] == v[i]@,
{
}

/// A path without the projects directory has no short form in the summary, nor has one that names
/// nothing in it; and the note has none where the last directory `.codexpotter` does not hold the
/// projects directory, or nothing is named in that.
pub proof fn law_when_there_is_no_short_form(parts: Seq<Part>)
    ensures
        ({
            let all = names(project_dir(parts));
            let i = first_root(all, 0);
            let k = last_codexpotter(all, all.len() as int);
            &&& (forall|j: int| 0 <= j < all.len() ==> !#[trigger] root_at(all, j))
                ==> summary_form(parts) is None
            &&& i < all.len() && i + 2 >= all.len() ==> summary_form(parts) is None
            &&& i < all.len() && i + 2 < all.len() ==> summary_form(parts) is Some
            &&& short_form_of_relative(project_dir(parts)) is None ==> {
                &&& k < 0 || !root_at(all, k) ==> note_form(parts) is None
                &&& k >= 0 && root_at(all, k) ==> (note_form(parts) is Some <==> k + 2 < all.len())
            }
        }),
{
    let all = names(project_dir(parts));
    if forall|j: int| 0 <= j < all.len() ==> !#[trigger] root_at(all, j) {
        lemma_no_root_at(all, 0);
    }
    lemma_first_root_is_in(all, 0);
    lemma_last_codexpotter_is_in(all, all.len() as int);
}

proof fn lemma_first_root_is_in(all: Seq<Seq<char>>, i: int)
    requires
        0 <= i,
    ensures
        i < all.len() ==> i <= first_root(all, i) <= all.len(),
        first_root(all, i) < all.len() ==> root_at(all, first_root(all, i)),
    decreases all.len() - i,
{
    if i < all.len() && !root_at(all, i) {
        lemma_first_root_is_in(all, i + 1);
    }
}

proof fn lemma_no_root_at(all: Seq<Seq<char>>, i: int)
    requires
        0 <= i,
        forall|j: int| 0 <= j < all.len() ==> !#[trigger] root_at(all, j),
    ensures
        first_root(all, i) >= all.len(),
    decreases all.len() - i,
{
    if i < all.len() {
        assert(!root_at(all, i));
        lemma_no_root_at(all, i + 1);
    }
}

proof fn lemma_last_codexpotter_is_in(all: Seq<Seq<char>>, n: int)
    requires
        0 <= n <= all.len(),
    ensures
        -1 <= last_codexpotter(all, n) < n || n == 0,
    decreases n,
{
    if n > 0 && all[n - 1] != ".codexpotter"@ {
        lemma_last_codexpotter_is_in(all, n - 1);
    }
}

} // verus!
