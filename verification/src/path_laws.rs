//! What holds of the short forms of paths.

use vstd::prelude::*;

use crate::paths;
use crate::paths::Part;
use crate::text;
use crate::text_laws;

verus! {

/// A name that stands for itself in a path.
pub open spec fn is_plain_name(name: Seq<char>) -> bool {
    &&& name.len() > 0
    &&& name != seq!['.']
    &&& name != seq!['.', '.']
    &&& forall|i: int| 0 <= i < name.len() ==> #[trigger] name[i] != '/'
}

proof fn lemma_parts_of_names(names: Seq<Seq<char>>, at_start: bool)
    requires
        forall|i: int| 0 <= i < names.len() ==> is_plain_name(#[trigger] names[i]),
    ensures
        paths::parts_of_pieces(names, at_start) == paths::normal_parts(names),
    decreases names.len(),
{
    if names.len() == 0 {
        assert(paths::normal_parts(names) =~= seq![]);
    } else {
        let rest = names.skip(1);
        assert forall|i: int| 0 <= i < rest.len() implies is_plain_name(#[trigger] rest[i]) by {
            assert(rest[i] == names[i + 1]);
        }
        lemma_parts_of_names(rest, false);
        assert(is_plain_name(names[0]));
        assert(seq![Part::Normal(names[0])] + paths::normal_parts(rest) =~= paths::normal_parts(
            names,
        ));
    }
}

/// The components of a path are the names that it is joined from; one that begins with a separator
/// begins with the root.
pub proof fn law_components_are_the_names(names: Seq<Seq<char>>)
    requires
        names.len() > 0,
        forall|i: int| 0 <= i < names.len() ==> is_plain_name(#[trigger] names[i]),
    ensures
        paths::portable_parts(text::join(names, "/"@)) == paths::normal_parts(names),
        paths::portable_parts(seq!['/'] + text::join(names, "/"@)) == seq![Part::RootDir]
            + paths::normal_parts(names),
{
    reveal_strlit("/");
    assert("/"@ =~= seq!['/']);
    assert forall|i: int, j: int| 0 <= i < names.len() && 0 <= j < names[i].len() implies
        #[trigger] names[i][j] != '/' by {
        assert(is_plain_name(names[i]));
    }
    let joined = text::join(names, seq!['/']);
    text_laws::law_split_undoes_join(names, '/');
    lemma_parts_of_names(names, true);
    lemma_parts_of_names(names, false);
    assert(is_plain_name(names[0]));
    let rest = names.skip(1);
    assert(names =~= seq![names[0]] + rest);
    text_laws::law_join(names[0], rest, seq!['/']);
    assert(joined[0] == names[0][0]);
    assert(paths::portable_parts(joined) =~= paths::normal_parts(names));
    let rooted = seq!['/'] + joined;
    let none = Seq::<char>::empty();
    assert(rooted =~= none.push('/') + joined);
    text_laws::law_split(none, '/', joined);
    assert((seq![none] + names).skip(1) =~= names);
}

/// A progress file that is named by its path below the working directory has the short form that
/// names its project: in the summary, in the note on how to resume it, and when it is left behind.
pub proof fn law_short_form_of_a_path(project: Seq<Seq<char>>, shown: Seq<char>)
    requires
        project.len() > 0,
        forall|i: int| 0 <= i < project.len() ==> is_plain_name(#[trigger] project[i]),
        forall|i: int| 0 <= i < project.len() ==> #[trigger] project[i] != ".codexpotter"@,
        project.last() != "MAIN.md"@,
    ensures
        ({
            let dir = seq![".codexpotter"@, "projects"@] + project;
            let file = dir.push("MAIN.md"@);
            let short = text::join(project, "/"@);
            let dir_path = text::join(dir, "/"@);
            let file_path = text::join(file, "/"@);
            &&& paths::summary_form(paths::portable_parts(file_path)) == Some(short)
            &&& paths::note_form(paths::portable_parts(file_path)) == Some(short)
            &&& paths::short_form_of_relative(paths::portable_parts(dir_path)) == Some(short)
            &&& paths::left_behind_name(
                paths::portable_parts(dir_path),
                dir_path,
                false,
                shown,
            ) == short
            &&& paths::left_behind_name(
                paths::portable_parts(file_path),
                file_path,
                true,
                shown,
            ) == short
        }),
{
    reveal_strlit(".codexpotter");
    reveal_strlit("projects");
    reveal_strlit("MAIN.md");
    let dir = seq![".codexpotter"@, "projects"@] + project;
    let file = dir.push("MAIN.md"@);
    assert(is_plain_name(".codexpotter"@));
    assert(is_plain_name("projects"@));
    assert(is_plain_name("MAIN.md"@));
    assert forall|i: int| 0 <= i < dir.len() implies is_plain_name(#[trigger] dir[i]) by {
        if i >= 2 {
            assert(dir[i] == project[i - 2]);
        }
    }
    assert forall|i: int| 0 <= i < file.len() implies is_plain_name(#[trigger] file[i]) by {
        if i < dir.len() {
            assert(file[i] == dir[i]);
        }
    }
    law_components_are_the_names(dir);
    law_components_are_the_names(file);
    let none = Seq::<Part>::empty();
    assert(paths::normal_parts(file) =~= paths::progress_file_parts(none, project));
    paths::law_short_forms_agree(none, project);
    let parts = paths::normal_parts(dir);
    assert(parts.skip(2) =~= paths::normal_parts(project));
    paths::law_names_of_names(project);
}

} // verus!
