//! What holds of the progress file of a new project.

use vstd::prelude::*;

use crate::front_matter;
use crate::front_matter_laws;
use crate::project;
use crate::project_setup::SetupInput;
use crate::project_setup::SetupPhase;
use crate::project_setup::SetupState;
use crate::project_setup::SetupStep;
use crate::text;

verus! {

/// The template of a progress file with a line for a key, whose value is a placeholder in double
/// quotes: `before` stands before the line, and `after` after it.
pub open spec fn template_with(
    before: Seq<char>,
    key: Seq<char>,
    place: Seq<char>,
    ending: Seq<char>,
    after: Seq<char>,
) -> Seq<char> {
    before + (key + seq![':', ' ', '"'] + place + seq!['"']) + ending + after
}

/// Something that begins with a brace, and holds neither a newline nor what is escaped in quotes.
spec fn is_placeholder(p: Seq<char>) -> bool {
    &&& p.len() > 0
    &&& p[0] == '{'
    &&& !p.contains('\n')
    &&& !p.contains('\\')
    &&& !p.contains('"')
}

proof fn lemma_placeholders()
    ensures
        is_placeholder("{{GIT_COMMIT}}"@),
        is_placeholder("{{GIT_BRANCH}}"@),
        is_placeholder(project::POTTER_XMODEL_FRONT_MATTER_PLACEHOLDER@),
        is_placeholder("{{USER_PROMPT}}"@),
        !text::occurs("{{GIT_BRANCH}}"@, "{{GIT_COMMIT}}"@),
{
    reveal_strlit("{{GIT_COMMIT}}");
    reveal_strlit("{{GIT_BRANCH}}");
    reveal_strlit("{{POTTER_XMODEL_FRONT_MATTER}}");
    reveal_strlit("{{USER_PROMPT}}");
    let commit = "{{GIT_COMMIT}}"@;
    let branch = "{{GIT_BRANCH}}"@;
    assert forall|i: int| !text::occurs_at(branch, commit, i) by {
        if text::occurs_at(branch, commit, i) {
            assert(branch.subrange(i, i + commit.len())[6] == branch[6]);
        }
    }
}

/// Whole lines, and text that ends in a quote, are filled in apart from what follows them.
proof fn lemma_filled_apart(
    a: Seq<char>,
    b: Seq<char>,
    user_prompt: Seq<char>,
    git_commit: Seq<char>,
    git_branch: Seq<char>,
    xmodel: bool,
)
    requires
        a.len() > 0,
        a.last() == '\n' || a.last() == '"',
    ensures
        project::project_main(a + b, user_prompt, git_commit, git_branch, xmodel)
            == project::project_main(a, user_prompt, git_commit, git_branch, xmodel)
            + project::project_main(b, user_prompt, git_commit, git_branch, xmodel),
        project::project_main(a, user_prompt, git_commit, git_branch, xmodel).len() > 0,
        project::project_main(a, user_prompt, git_commit, git_branch, xmodel).last() == a.last(),
{
    lemma_placeholders();
    let p1 = "{{GIT_COMMIT}}"@;
    let p2 = "{{GIT_BRANCH}}"@;
    let p3 = project::POTTER_XMODEL_FRONT_MATTER_PLACEHOLDER@;
    let p4 = "{{USER_PROMPT}}"@;
    let t1 = front_matter::escaped(git_commit);
    let t2 = front_matter::escaped(git_branch);
    let t3 = project::xmodel_front_matter(xmodel);
    let t4 = project::stated_goal(user_prompt);
    let (a1, b1) = (text::replace(a, p1, t1), text::replace(b, p1, t1));
    let (a2, b2) = (text::replace(a1, p2, t2), text::replace(b1, p2, t2));
    let (a3, b3) = (text::replace(a2, p3, t3), text::replace(b2, p3, t3));
    text::lemma_replace_concat(a, b, p1, t1);
    text::lemma_replace_keeps_end(a, p1, t1);
    text::lemma_replace_concat(a1, b1, p2, t2);
    text::lemma_replace_keeps_end(a1, p2, t2);
    text::lemma_replace_concat(a2, b2, p3, t3);
    text::lemma_replace_keeps_end(a2, p3, t3);
    text::lemma_replace_concat(a3, b3, p4, t4);
    text::lemma_replace_keeps_end(a3, p4, t4);
}

/// What holds no brace is left as it is.
proof fn lemma_filled_plain(
    s: Seq<char>,
    user_prompt: Seq<char>,
    git_commit: Seq<char>,
    git_branch: Seq<char>,
    xmodel: bool,
)
    requires
        forall|i: int| 0 <= i < s.len() ==> s[i] != '{',
    ensures
        project::project_main(s, user_prompt, git_commit, git_branch, xmodel) == s,
{
    lemma_placeholders();
    let p1 = "{{GIT_COMMIT}}"@;
    let p2 = "{{GIT_BRANCH}}"@;
    let p3 = project::POTTER_XMODEL_FRONT_MATTER_PLACEHOLDER@;
    let p4 = "{{USER_PROMPT}}"@;
    text::lemma_occurs_first(s, p1);
    text::lemma_occurs_first(s, p2);
    text::lemma_occurs_first(s, p3);
    text::lemma_occurs_first(s, p4);
    text::lemma_replace_absent(s, p1, front_matter::escaped(git_commit));
    text::lemma_replace_absent(s, p2, front_matter::escaped(git_branch));
    text::lemma_replace_absent(s, p3, project::xmodel_front_matter(xmodel));
    text::lemma_replace_absent(s, p4, project::stated_goal(user_prompt));
}

/// A text between quotes in which a placeholder does not occur is left as it is.
proof fn lemma_scalar_is_left(v: Seq<char>, p: Seq<char>, to: Seq<char>)
    requires
        is_placeholder(p),
        !text::occurs(v, p),
    ensures
        text::replace(front_matter::escaped(v).push('"'), p, to) == front_matter::escaped(v).push(
            '"',
        ),
{
    front_matter_laws::lemma_occurs_escaped(v, p);
    text::lemma_occurs_push(front_matter::escaped(v), '"', p);
    text::lemma_replace_absent(front_matter::escaped(v).push('"'), p, to);
}

/// A placeholder before a quote is filled in.
proof fn lemma_place_is_filled(p: Seq<char>, to: Seq<char>)
    requires
        is_placeholder(p),
    ensures
        text::replace(p.push('"'), p, to) == to.push('"'),
{
    let s = p.push('"');
    let quote = seq!['"'];
    assert(s.take(p.len() as int) =~= p);
    assert(s.skip(p.len() as int) =~= quote);
    text::lemma_occurs_first(quote, p);
    text::lemma_replace_absent(quote, p, to);
    assert(to + quote =~= to.push('"'));
}

/// A file that is filled in around one line.
proof fn lemma_filled_around(
    before: Seq<char>,
    key: Seq<char>,
    place: Seq<char>,
    ending: Seq<char>,
    after: Seq<char>,
    user_prompt: Seq<char>,
    git_commit: Seq<char>,
    git_branch: Seq<char>,
    xmodel: bool,
)
    requires
        before.len() > 0,
        before.last() == '\n',
        forall|i: int| 0 <= i < key.len() ==> key[i] != '{',
        front_matter_laws::is_line_ending(ending),
    ensures
        project::project_main(
            template_with(before, key, place, ending, after),
            user_prompt,
            git_commit,
            git_branch,
            xmodel,
        ) == project::project_main(before, user_prompt, git_commit, git_branch, xmodel) + (key
            + seq![':', ' ', '"'] + project::project_main(
            place.push('"'),
            user_prompt,
            git_commit,
            git_branch,
            xmodel,
        )) + ending + project::project_main(after, user_prompt, git_commit, git_branch, xmodel),
        project::project_main(before, user_prompt, git_commit, git_branch, xmodel).len() > 0,
        project::project_main(before, user_prompt, git_commit, git_branch, xmodel).last() == '\n',
{
    let head = key + seq![':', ' ', '"'];
    let scalar = place.push('"');
    lemma_filled_apart(
        before,
        head + (scalar + (ending + after)),
        user_prompt,
        git_commit,
        git_branch,
        xmodel,
    );
    lemma_filled_apart(
        head,
        scalar + (ending + after),
        user_prompt,
        git_commit,
        git_branch,
        xmodel,
    );
    lemma_filled_apart(scalar, ending + after, user_prompt, git_commit, git_branch, xmodel);
    lemma_filled_apart(ending, after, user_prompt, git_commit, git_branch, xmodel);
    assert forall|i: int| 0 <= i < head.len() implies head[i] != '{' by {
        if i < key.len() {
            assert(head[i] == key[i]);
        }
    }
    lemma_filled_plain(head, user_prompt, git_commit, git_branch, xmodel);
    lemma_filled_plain(ending, user_prompt, git_commit, git_branch, xmodel);
    assert(template_with(before, key, place, ending, after) =~= before + (head + (scalar + (ending
        + after))));
    let b = project::project_main(before, user_prompt, git_commit, git_branch, xmodel);
    let x = project::project_main(scalar, user_prompt, git_commit, git_branch, xmodel);
    let a = project::project_main(after, user_prompt, git_commit, git_branch, xmodel);
    assert(b + (head + (x + (ending + a))) =~= b + (head + x) + ending + a);
}

/// The commit of a new project is read back from its progress file, an empty one included: for a
/// template whose front matter has the commit's placeholder in double quotes on a line of its own,
/// once everything before that line opens the front matter and speaks of no commit, and what follows
/// it closes the front matter. The commit is on one line, and holds no placeholder that is filled in
/// after it.
pub proof fn law_commit_reads_back(
    before: Seq<char>,
    ending: Seq<char>,
    after: Seq<char>,
    user_prompt: Seq<char>,
    git_commit: Seq<char>,
    git_branch: Seq<char>,
    xmodel: bool,
)
    requires
        before.len() > 0,
        before.last() == '\n',
        front_matter_laws::opens_without(
            text::lines(
                project::project_main(before, user_prompt, git_commit, git_branch, xmodel),
            ),
            "git_commit"@,
        ),
        front_matter_laws::is_line_ending(ending),
        front_matter_laws::fits_one_line(git_commit),
        ({
            let below = text::lines(
                project::project_main(after, user_prompt, git_commit, git_branch, xmodel),
            );
            front_matter::footer(below, 0) < below.len()
        }),
        !text::occurs(git_commit, "{{GIT_BRANCH}}"@),
        !text::occurs(git_commit, project::POTTER_XMODEL_FRONT_MATTER_PLACEHOLDER@),
        !text::occurs(git_commit, "{{USER_PROMPT}}"@),
    ensures
        ({
            let template = template_with(
                before,
                "git_commit"@,
                "{{GIT_COMMIT}}"@,
                ending,
                after,
            );
            let contents = project::project_main(
                template,
                user_prompt,
                git_commit,
                git_branch,
                xmodel,
            );
            &&& front_matter::read_string(contents, "git_commit"@) == Some(git_commit)
            &&& project::recorded_commit(contents) == Ok::<
                Seq<char>,
                front_matter::FrontMatterFault,
            >(git_commit)
        }),
{
    reveal_strlit("git_commit");
    lemma_placeholders();
    let key = "git_commit"@;
    let place = "{{GIT_COMMIT}}"@;
    let e = front_matter::escaped(git_commit);
    lemma_filled_around(
        before,
        key,
        place,
        ending,
        after,
        user_prompt,
        git_commit,
        git_branch,
        xmodel,
    );
    lemma_place_is_filled(place, e);
    lemma_scalar_is_left(git_commit, "{{GIT_BRANCH}}"@, front_matter::escaped(git_branch));
    lemma_scalar_is_left(
        git_commit,
        project::POTTER_XMODEL_FRONT_MATTER_PLACEHOLDER@,
        project::xmodel_front_matter(xmodel),
    );
    lemma_scalar_is_left(git_commit, "{{USER_PROMPT}}"@, project::stated_goal(user_prompt));
    let b = project::project_main(before, user_prompt, git_commit, git_branch, xmodel);
    let a = project::project_main(after, user_prompt, git_commit, git_branch, xmodel);
    assert(key + seq![':', ' ', '"'] + e.push('"') =~= front_matter_laws::quoted_line(
        key,
        git_commit,
    ));
    front_matter_laws::law_quoted_line_reads_back(b, key, git_commit, ending, a);
}

/// The branch of a new project is read back from its progress file, but for white space around it,
/// and a blank one as none: for a template whose front matter has the branch's placeholder in double
/// quotes on a line of its own, once everything before that line opens the front matter and speaks
/// of no branch, and what follows it closes the front matter. The branch is on one line, and holds no
/// placeholder that is filled in after it.
pub proof fn law_branch_reads_back(
    before: Seq<char>,
    ending: Seq<char>,
    after: Seq<char>,
    user_prompt: Seq<char>,
    git_commit: Seq<char>,
    git_branch: Seq<char>,
    xmodel: bool,
)
    requires
        before.len() > 0,
        before.last() == '\n',
        front_matter_laws::opens_without(
            text::lines(
                project::project_main(before, user_prompt, git_commit, git_branch, xmodel),
            ),
            "git_branch"@,
        ),
        front_matter_laws::is_line_ending(ending),
        front_matter_laws::fits_one_line(git_branch),
        ({
            let below = text::lines(
                project::project_main(after, user_prompt, git_commit, git_branch, xmodel),
            );
            front_matter::footer(below, 0) < below.len()
        }),
        !text::occurs(git_branch, project::POTTER_XMODEL_FRONT_MATTER_PLACEHOLDER@),
        !text::occurs(git_branch, "{{USER_PROMPT}}"@),
    ensures
        ({
            let template = template_with(
                before,
                "git_branch"@,
                "{{GIT_BRANCH}}"@,
                ending,
                after,
            );
            let contents = project::project_main(
                template,
                user_prompt,
                git_commit,
                git_branch,
                xmodel,
            );
            &&& front_matter::read_string(contents, "git_branch"@) == Some(git_branch)
            &&& project::non_blank(contents, "git_branch"@) == Ok::<
                Option<Seq<char>>,
                front_matter::FrontMatterFault,
            >(project::git_text(true, git_branch))
        }),
{
    reveal_strlit("git_branch");
    lemma_placeholders();
    let key = "git_branch"@;
    let place = "{{GIT_BRANCH}}"@;
    let e = front_matter::escaped(git_branch);
    lemma_filled_around(
        before,
        key,
        place,
        ending,
        after,
        user_prompt,
        git_commit,
        git_branch,
        xmodel,
    );
    text::lemma_occurs_push(place, '"', "{{GIT_COMMIT}}"@);
    text::lemma_replace_absent(
        place.push('"'),
        "{{GIT_COMMIT}}"@,
        front_matter::escaped(git_commit),
    );
    lemma_place_is_filled(place, e);
    lemma_scalar_is_left(
        git_branch,
        project::POTTER_XMODEL_FRONT_MATTER_PLACEHOLDER@,
        project::xmodel_front_matter(xmodel),
    );
    lemma_scalar_is_left(git_branch, "{{USER_PROMPT}}"@, project::stated_goal(user_prompt));
    let b = project::project_main(before, user_prompt, git_commit, git_branch, xmodel);
    let a = project::project_main(after, user_prompt, git_commit, git_branch, xmodel);
    assert(key + seq![':', ' ', '"'] + e.push('"') =~= front_matter_laws::quoted_line(
        key,
        git_branch,
    ));
    front_matter_laws::law_quoted_line_reads_back(b, key, git_branch, ending, a);
}

/// A line with nothing but the placeholder of cross-model review, filled in.
proof fn lemma_xmodel_line(
    ending: Seq<char>,
    user_prompt: Seq<char>,
    git_commit: Seq<char>,
    git_branch: Seq<char>,
)
    requires
        front_matter_laws::is_line_ending(ending),
    ensures
        project::project_main(
            project::POTTER_XMODEL_FRONT_MATTER_PLACEHOLDER@ + ending,
            user_prompt,
            git_commit,
            git_branch,
            true,
        ) == "potter.xmodel"@ + seq![':', ' '] + front_matter::bool_text(true) + ending,
{
    lemma_placeholders();
    reveal_strlit("{{GIT_COMMIT}}");
    reveal_strlit("{{GIT_BRANCH}}");
    reveal_strlit("{{POTTER_XMODEL_FRONT_MATTER}}");
    reveal_strlit("potter.xmodel: true");
    reveal_strlit("potter.xmodel");
    let p1 = "{{GIT_COMMIT}}"@;
    let p2 = "{{GIT_BRANCH}}"@;
    let p3 = project::POTTER_XMODEL_FRONT_MATTER_PLACEHOLDER@;
    let p4 = "{{USER_PROMPT}}"@;
    let line = p3 + ending;
    let filled = "potter.xmodel: true"@ + ending;
    assert forall|i: int| 0 <= i < line.len() && line[i] == '{' implies i < 2 by {
        if i < p3.len() {
            assert(line[i] == p3[i]);
        }
    }
    assert(line[2] == 'P');
    assert forall|i: int| !text::occurs_at(line, p1, i) by {
        if text::occurs_at(line, p1, i) {
            let found = line.subrange(i, i + p1.len());
            assert(found[0] == line[i] && found[1] == line[i + 1] && found[2] == line[i + 2]);
        }
    }
    assert forall|i: int| !text::occurs_at(line, p2, i) by {
        if text::occurs_at(line, p2, i) {
            let found = line.subrange(i, i + p2.len());
            assert(found[0] == line[i] && found[1] == line[i + 1] && found[2] == line[i + 2]);
        }
    }
    text::lemma_replace_absent(line, p1, front_matter::escaped(git_commit));
    text::lemma_replace_absent(line, p2, front_matter::escaped(git_branch));
    assert(line.take(p3.len() as int) =~= p3);
    assert(line.skip(p3.len() as int) =~= ending);
    text::lemma_occurs_first(ending, p3);
    text::lemma_replace_absent(ending, p3, "potter.xmodel: true"@);
    assert forall|i: int| 0 <= i < filled.len() implies filled[i] != '{' by {
        if i < "potter.xmodel: true"@.len() {
            assert(filled[i] == "potter.xmodel: true"@[i]);
        }
    }
    text::lemma_occurs_first(filled, p4);
    text::lemma_replace_absent(filled, p4, project::stated_goal(user_prompt));
    assert("potter.xmodel: true"@ =~= "potter.xmodel"@ + seq![':', ' '] + front_matter::bool_text(
        true,
    ));
}

/// A new project that is to have cross-model review is read so from its progress file: for a
/// template whose front matter has the placeholder of cross-model review on a line of its own, once
/// everything before that line opens the front matter and does not speak of it, and everything after
/// it closes the front matter.
pub proof fn law_xmodel_reads_back(
    before: Seq<char>,
    ending: Seq<char>,
    after: Seq<char>,
    user_prompt: Seq<char>,
    git_commit: Seq<char>,
    git_branch: Seq<char>,
)
    requires
        before.len() > 0,
        before.last() == '\n',
        front_matter_laws::opens_without(
            text::lines(
                project::project_main(before, user_prompt, git_commit, git_branch, true),
            ),
            "potter.xmodel"@,
        ),
        front_matter_laws::is_line_ending(ending),
        ({
            let below = text::lines(
                project::project_main(after, user_prompt, git_commit, git_branch, true),
            );
            front_matter::footer(below, 0) < below.len()
        }),
    ensures
        project::flag(
            project::project_main(
                before + project::POTTER_XMODEL_FRONT_MATTER_PLACEHOLDER@ + ending + after,
                user_prompt,
                git_commit,
                git_branch,
                true,
            ),
            "potter.xmodel"@,
        ) == Ok::<bool, front_matter::FrontMatterFault>(true),
{
    reveal_strlit("potter.xmodel");
    let place = project::POTTER_XMODEL_FRONT_MATTER_PLACEHOLDER@;
    let line = place + ending;
    lemma_filled_apart(before, line + after, user_prompt, git_commit, git_branch, true);
    lemma_filled_apart(line, after, user_prompt, git_commit, git_branch, true);
    lemma_xmodel_line(ending, user_prompt, git_commit, git_branch);
    assert(before + place + ending + after =~= before + (line + after));
    let key = "potter.xmodel"@;
    let b = project::project_main(before, user_prompt, git_commit, git_branch, true);
    let a = project::project_main(after, user_prompt, git_commit, git_branch, true);
    let stated = key + seq![':', ' '] + front_matter::bool_text(true);
    assert(b + (stated + ending + a) =~= b + stated + ending + a);
    front_matter_laws::law_bool_line_reads_back(b, key, true, ending, a);
}

/// A project that was set up is the one that is read: the commit at which it started, as the setup
/// hands it out, is the one that is read from the progress file that the setup has written. The
/// template and the commit are as in [`law_commit_reads_back`].
pub proof fn law_setup_records_its_commit(
    s: SetupState,
    idx: u32,
    before: Seq<char>,
    ending: Seq<char>,
    after: Seq<char>,
)
    requires
        s.phase == (SetupPhase::CreateProject { idx }),
        s.template == template_with(before, "git_commit"@, "{{GIT_COMMIT}}"@, ending, after),
        before.len() > 0,
        before.last() == '\n',
        front_matter_laws::opens_without(
            text::lines(
                project::project_main(
                    before,
                    s.user_prompt,
                    s.git_commit,
                    s.git_branch,
                    text::occurs(s.user_prompt, project::POTTER_XMODEL_MARKER@),
                ),
            ),
            "git_commit"@,
        ),
        front_matter_laws::is_line_ending(ending),
        front_matter_laws::fits_one_line(s.git_commit),
        ({
            let below = text::lines(
                project::project_main(
                    after,
                    s.user_prompt,
                    s.git_commit,
                    s.git_branch,
                    text::occurs(s.user_prompt, project::POTTER_XMODEL_MARKER@),
                ),
            );
            front_matter::footer(below, 0) < below.len()
        }),
        !text::occurs(s.git_commit, "{{GIT_BRANCH}}"@),
        !text::occurs(s.git_commit, project::POTTER_XMODEL_FRONT_MATTER_PLACEHOLDER@),
        !text::occurs(s.git_commit, "{{USER_PROMPT}}"@),
    ensures
        ({
            let (t, written) = s.next(SetupInput::Done(true));
            let (_, done) = t.next(SetupInput::Done(true));
            match (written, done) {
                (
                    SetupStep::Write { path, contents },
                    SetupStep::Done { progress_file_rel, git_commit_start },
                ) => {
                    &&& path == progress_file_rel
                    &&& project::recorded_commit(contents) == Ok::<
                        Seq<char>,
                        front_matter::FrontMatterFault,
                    >(git_commit_start)
                },
                _ => false,
            }
        }),
{
    law_commit_reads_back(
        before,
        ending,
        after,
        s.user_prompt,
        s.git_commit,
        s.git_branch,
        text::occurs(s.user_prompt, project::POTTER_XMODEL_MARKER@),
    );
}

/// A slash begins the marker of cross-model review, and stands nowhere else in it.
proof fn lemma_marker()
    ensures
        ({
            let m = project::POTTER_XMODEL_MARKER_WITH_TRAILING_SPACE@;
            &&& m.len() == 15
            &&& m[0] == '/'
            &&& forall|i: int| 0 < i < m.len() ==> m[i] != '/'
        }),
{
    reveal_strlit("/potter:xmodel ");
}

/// Before the first marker a text is left as it is, and the marker goes.
proof fn lemma_marker_goes(a: Seq<char>, rest: Seq<char>)
    requires
        !text::occurs(a, project::POTTER_XMODEL_MARKER_WITH_TRAILING_SPACE@),
    ensures
        project::stated_goal(a + project::POTTER_XMODEL_MARKER_WITH_TRAILING_SPACE@ + rest) == a
            + project::stated_goal(rest),
    decreases a.len(),
{
    lemma_marker();
    reveal_strlit("");
    let m = project::POTTER_XMODEL_MARKER_WITH_TRAILING_SPACE@;
    let s = a + m + rest;
    let n = m.len() as int;
    if a.len() == 0 {
        assert(s.take(n) =~= m);
        assert(s.skip(n) =~= rest);
        assert(""@ + text::replace(rest, m, ""@) =~= a + text::replace(rest, m, ""@));
    } else {
        if s.take(n) == m {
            if a.len() >= n {
                assert(a.subrange(0, n) =~= s.take(n));
                assert(text::occurs_at(a, m, 0));
            } else {
                assert(s[a.len() as int] == m[0]);
                assert(s.take(n)[a.len() as int] == m[a.len() as int]);
            }
        }
        let tail = a.skip(1);
        assert forall|i: int| !text::occurs_at(tail, m, i) by {
            if text::occurs_at(tail, m, i) {
                assert(a.subrange(i + 1, i + 1 + n) =~= tail.subrange(i, i + n));
                assert(text::occurs_at(a, m, i + 1));
            }
        }
        lemma_marker_goes(tail, rest);
        assert(s.skip(1) =~= tail + m + rest);
        assert(seq![s[0]] + (tail + project::stated_goal(rest)) =~= a + project::stated_goal(rest));
    }
}

/// The goal of a prompt without the marker is the prompt, whole and unchanged.
pub proof fn law_goal_is_the_prompt(user_prompt: Seq<char>)
    requires
        !text::occurs(user_prompt, "/potter:xmodel "@),
    ensures
        project::stated_goal(user_prompt) == user_prompt,
{
    lemma_marker();
    text::lemma_replace_absent(
        user_prompt,
        project::POTTER_XMODEL_MARKER_WITH_TRAILING_SPACE@,
        ""@,
    );
}

/// The marker, with the space after it, is what a prompt loses on the way to its goal, wherever it
/// stands and however often: what stands around it is kept, and nothing comes in its place.
pub proof fn law_goal_loses_the_marker_alone(a: Seq<char>, b: Seq<char>, rest: Seq<char>)
    requires
        !text::occurs(a, "/potter:xmodel "@),
        !text::occurs(b, "/potter:xmodel "@),
    ensures
        project::stated_goal(a + "/potter:xmodel "@ + b) == a + b,
        project::stated_goal(a + "/potter:xmodel "@ + rest) == a + project::stated_goal(rest),
{
    lemma_marker_goes(a, b);
    lemma_marker_goes(a, rest);
    law_goal_is_the_prompt(b);
}

/// Where the template has a place for the goal once everything else is filled in, the prompt stands
/// in the progress file, whole and unchanged, but for the marker.
pub proof fn law_prompt_is_kept(
    template: Seq<char>,
    a: Seq<char>,
    b: Seq<char>,
    git_commit: Seq<char>,
    git_branch: Seq<char>,
    xmodel: bool,
)
    requires
        text::occurs(
            project::with_front_matter(template, git_commit, git_branch, xmodel),
            "{{USER_PROMPT}}"@,
        ),
        !text::occurs(a, "/potter:xmodel "@),
        !text::occurs(b, "/potter:xmodel "@),
    ensures
        text::occurs(project::project_main(template, a, git_commit, git_branch, xmodel), a),
        text::occurs(
            project::project_main(
                template,
                a + "/potter:xmodel "@ + b,
                git_commit,
                git_branch,
                xmodel,
            ),
            a + b,
        ),
{
    law_goal_is_the_prompt(a);
    law_goal_loses_the_marker_alone(a, b, b);
    project::law_goal_is_kept(template, a, git_commit, git_branch, xmodel);
    project::law_goal_is_kept(
        template,
        a + "/potter:xmodel "@ + b,
        git_commit,
        git_branch,
        xmodel,
    );
}

/// What a template says outside of its placeholders, the progress file says too.
pub proof fn law_plain_template_is_kept(
    s: Seq<char>,
    user_prompt: Seq<char>,
    git_commit: Seq<char>,
    git_branch: Seq<char>,
    xmodel: bool,
)
    requires
        forall|i: int| 0 <= i < s.len() ==> s[i] != '{',
    ensures
        project::project_main(s, user_prompt, git_commit, git_branch, xmodel) == s,
{
    lemma_filled_plain(s, user_prompt, git_commit, git_branch, xmodel);
}

/// A line with nothing but the placeholder of the goal, filled in.
proof fn lemma_goal_line(
    user_prompt: Seq<char>,
    git_commit: Seq<char>,
    git_branch: Seq<char>,
    xmodel: bool,
)
    ensures
        project::project_main(
            "{{USER_PROMPT}}"@.push('\n'),
            user_prompt,
            git_commit,
            git_branch,
            xmodel,
        ) == project::stated_goal(user_prompt).push('\n'),
{
    lemma_placeholders();
    reveal_strlit("{{GIT_COMMIT}}");
    reveal_strlit("{{GIT_BRANCH}}");
    reveal_strlit("{{POTTER_XMODEL_FRONT_MATTER}}");
    reveal_strlit("{{USER_PROMPT}}");
    let p1 = "{{GIT_COMMIT}}"@;
    let p2 = "{{GIT_BRANCH}}"@;
    let p3 = project::POTTER_XMODEL_FRONT_MATTER_PLACEHOLDER@;
    let p4 = "{{USER_PROMPT}}"@;
    let line = p4.push('\n');
    assert forall|i: int| !text::occurs_at(line, p1, i) by {
        if text::occurs_at(line, p1, i) {
            let found = line.subrange(i, i + p1.len());
            assert(found[0] == line[i] && found[1] == line[i + 1] && found[2] == line[i + 2]);
        }
    }
    assert forall|i: int| !text::occurs_at(line, p2, i) by {
        if text::occurs_at(line, p2, i) {
            let found = line.subrange(i, i + p2.len());
            assert(found[0] == line[i] && found[1] == line[i + 1] && found[2] == line[i + 2]);
        }
    }
    assert forall|i: int| !text::occurs_at(line, p3, i) by {}
    text::lemma_replace_absent(line, p1, front_matter::escaped(git_commit));
    text::lemma_replace_absent(line, p2, front_matter::escaped(git_branch));
    text::lemma_replace_absent(line, p3, project::xmodel_front_matter(xmodel));
    assert(line.take(p4.len() as int) =~= p4);
    assert(line.skip(p4.len() as int) =~= seq!['\n']);
    let goal = project::stated_goal(user_prompt);
    text::lemma_occurs_first(seq!['\n'], p4);
    text::lemma_replace_absent(seq!['\n'], p4, goal);
    assert(goal + seq!['\n'] =~= goal.push('\n'));
}

/// A template with a line for the goal becomes a progress file with the prompt on that line,
/// between what becomes of the text before it and of the text after it; a marker in the prompt is
/// gone.
pub proof fn law_goal_stands_in_its_place(
    before: Seq<char>,
    after: Seq<char>,
    a: Seq<char>,
    b: Seq<char>,
    git_commit: Seq<char>,
    git_branch: Seq<char>,
    xmodel: bool,
)
    requires
        before.len() > 0,
        before.last() == '\n',
        !text::occurs(a, "/potter:xmodel "@),
        !text::occurs(b, "/potter:xmodel "@),
    ensures
        ({
            let template = before + "{{USER_PROMPT}}"@.push('\n') + after;
            project::project_main(template, a, git_commit, git_branch, xmodel)
                == project::project_main(before, a, git_commit, git_branch, xmodel) + a.push('\n')
                + project::project_main(after, a, git_commit, git_branch, xmodel)
        }),
        ({
            let template = before + "{{USER_PROMPT}}"@.push('\n') + after;
            let prompt = a + "/potter:xmodel "@ + b;
            project::project_main(template, prompt, git_commit, git_branch, xmodel)
                == project::project_main(before, prompt, git_commit, git_branch, xmodel) + (a
                + b).push('\n') + project::project_main(
                after,
                prompt,
                git_commit,
                git_branch,
                xmodel,
            )
        }),
{
    let prompt = a + "/potter:xmodel "@ + b;
    law_goal_is_the_prompt(a);
    law_goal_loses_the_marker_alone(a, b, b);
    lemma_goal_between(before, after, a, git_commit, git_branch, xmodel);
    lemma_goal_between(before, after, prompt, git_commit, git_branch, xmodel);
}

/// A template that is filled in around the line of the goal.
proof fn lemma_goal_between(
    before: Seq<char>,
    after: Seq<char>,
    user_prompt: Seq<char>,
    git_commit: Seq<char>,
    git_branch: Seq<char>,
    xmodel: bool,
)
    requires
        before.len() > 0,
        before.last() == '\n',
    ensures
        project::project_main(
            before + "{{USER_PROMPT}}"@.push('\n') + after,
            user_prompt,
            git_commit,
            git_branch,
            xmodel,
        ) == project::project_main(before, user_prompt, git_commit, git_branch, xmodel)
            + project::stated_goal(user_prompt).push('\n') + project::project_main(
            after,
            user_prompt,
            git_commit,
            git_branch,
            xmodel,
        ),
{
    let line = "{{USER_PROMPT}}"@.push('\n');
    lemma_filled_apart(before, line + after, user_prompt, git_commit, git_branch, xmodel);
    lemma_filled_apart(line, after, user_prompt, git_commit, git_branch, xmodel);
    lemma_goal_line(user_prompt, git_commit, git_branch, xmodel);
    assert(before + line + after =~= before + (line + after));
    let b = project::project_main(before, user_prompt, git_commit, git_branch, xmodel);
    let g = project::stated_goal(user_prompt).push('\n');
    let a = project::project_main(after, user_prompt, git_commit, git_branch, xmodel);
    assert(b + (g + a) =~= b + g + a);
}

/// Without cross-model review, its line in the template is left empty.
pub proof fn law_no_xmodel_no_line(
    user_prompt: Seq<char>,
    git_commit: Seq<char>,
    git_branch: Seq<char>,
)
    ensures
        project::project_main(
            "{{POTTER_XMODEL_FRONT_MATTER}}"@.push('\n'),
            user_prompt,
            git_commit,
            git_branch,
            false,
        ) == seq!['\n'],
{
    lemma_placeholders();
    reveal_strlit("{{GIT_COMMIT}}");
    reveal_strlit("{{GIT_BRANCH}}");
    reveal_strlit("{{POTTER_XMODEL_FRONT_MATTER}}");
    reveal_strlit("{{USER_PROMPT}}");
    reveal_strlit("");
    let p1 = "{{GIT_COMMIT}}"@;
    let p2 = "{{GIT_BRANCH}}"@;
    let p3 = project::POTTER_XMODEL_FRONT_MATTER_PLACEHOLDER@;
    let p4 = "{{USER_PROMPT}}"@;
    let line = p3.push('\n');
    assert forall|i: int| !text::occurs_at(line, p1, i) by {
        if text::occurs_at(line, p1, i) {
            let found = line.subrange(i, i + p1.len());
            assert(found[0] == line[i] && found[1] == line[i + 1] && found[2] == line[i + 2]);
        }
    }
    assert forall|i: int| !text::occurs_at(line, p2, i) by {
        if text::occurs_at(line, p2, i) {
            let found = line.subrange(i, i + p2.len());
            assert(found[0] == line[i] && found[1] == line[i + 1] && found[2] == line[i + 2]);
        }
    }
    text::lemma_replace_absent(line, p1, front_matter::escaped(git_commit));
    text::lemma_replace_absent(line, p2, front_matter::escaped(git_branch));
    let nl = seq!['\n'];
    assert(line.take(p3.len() as int) =~= p3);
    assert(line.skip(p3.len() as int) =~= nl);
    text::lemma_occurs_first(nl, p3);
    text::lemma_replace_absent(nl, p3, ""@);
    assert(""@ + nl =~= nl);
    text::lemma_occurs_first(nl, p4);
    text::lemma_replace_absent(nl, p4, project::stated_goal(user_prompt));
}

/// What git printed is taken without the white space around it, and nothing else is taken off it;
/// of a git that failed, or printed white space alone, nothing is taken.
pub proof fn law_git_text_is_trimmed(a: Seq<char>, w: Seq<char>, b: Seq<char>)
    requires
        forall|i: int| 0 <= i < a.len() ==> text::is_white(#[trigger] a[i]),
        forall|i: int| 0 <= i < b.len() ==> text::is_white(#[trigger] b[i]),
        w.len() > 0 ==> !text::is_white(w[0]) && !text::is_white(w.last()),
    ensures
        w.len() > 0 ==> project::git_text(true, a + w + b) == Some(w),
        project::git_text(true, a + b) == None::<Seq<char>>,
        project::git_text(false, a + w + b) == None::<Seq<char>>,
{
    let s = a + w + b;
    if w.len() > 0 {
        let m = a.len() as int;
        let n = (a.len() + w.len()) as int;
        assert(s.subrange(m, n) =~= w);
        assert forall|i: int| 0 <= i < m implies text::is_white(#[trigger] s[i]) by {
            assert(s[i] == a[i]);
        }
        assert forall|i: int| n <= i < s.len() implies text::is_white(#[trigger] s[i]) by {
            assert(s[i] == b[i - n]);
        }
        assert(s[m] == w[0]);
        assert(s[n - 1] == w.last());
        text::lemma_trim_unique(s, m, n);
    }
    let t = a + b;
    assert forall|i: int| 0 <= i < t.len() implies text::is_white(#[trigger] t[i]) by {
        if i < a.len() {
            assert(t[i] == a[i]);
        } else {
            assert(t[i] == b[i - a.len()]);
        }
    }
    text::lemma_trim_white(t);
}

/// What git answers is what it printed; where it could not be run there is no answer, and no answer
/// is the empty text.
pub proof fn law_git_answer(output: project::GitOutput, s: Seq<char>)
    ensures
        project::git_answer(Some(output)) == project::git_text(
            output.success,
            project::lossy_text(output.stdout@),
        ),
        project::git_answer(None) == None::<Seq<char>>,
        project::or_empty(Some(s)) == s,
        project::or_empty(None) == Seq::<char>::empty(),
{
    assert(project::or_empty(None) =~= Seq::<char>::empty());
}

/// A flag of a progress file is as the front matter says; one that is not there is off, and a front
/// matter that cannot be read is a fault.
pub proof fn law_flag(contents: Seq<char>, key: Seq<char>)
    ensures
        project::flag(contents, key) == Ok::<bool, front_matter::FrontMatterFault>(true) <==> (
        front_matter::read_bool(contents, key) == Ok::<
            Option<bool>,
            front_matter::FrontMatterFault,
        >(Some(true))),
        project::flag(contents, key) is Err <==> front_matter::read_bool(contents, key) is Err,
        project::flag(contents, key) is Err ==> project::flag(contents, key)->Err_0
            == front_matter::read_bool(contents, key)->Err_0,
{
}

/// A text of a progress file is without white space around it and never blank; the commit is as it
/// was written. Neither is read from a file whose front matter is not closed.
pub proof fn law_text_of_a_progress_file(contents: Seq<char>, key: Seq<char>)
    ensures
        project::non_blank(contents, key) is Err <==> front_matter::delimiters(contents) is Err,
        project::recorded_commit(contents) is Err <==> front_matter::delimiters(contents) is Err,
        front_matter::delimiters(contents) is Ok ==> match front_matter::read_string(
            contents,
            key,
        ) {
            Some(v) => project::non_blank(contents, key) == Ok::<
                Option<Seq<char>>,
                front_matter::FrontMatterFault,
            >(project::git_text(true, v)),
            None => project::non_blank(contents, key) == Ok::<
                Option<Seq<char>>,
                front_matter::FrontMatterFault,
            >(None),
        },
        front_matter::delimiters(contents) is Ok ==> match front_matter::read_string(
            contents,
            "git_commit"@,
        ) {
            Some(v) => project::recorded_commit(contents) == Ok::<
                Seq<char>,
                front_matter::FrontMatterFault,
            >(v),
            None => project::recorded_commit(contents) == Ok::<
                Seq<char>,
                front_matter::FrontMatterFault,
            >(seq![]),
        },
        match front_matter::delimiters(contents) {
            Err(fault) => {
                &&& project::non_blank(contents, key) == Err::<
                    Option<Seq<char>>,
                    front_matter::FrontMatterFault,
                >(fault)
                &&& project::recorded_commit(contents) == Err::<
                    Seq<char>,
                    front_matter::FrontMatterFault,
                >(fault)
            },
            Ok(_) => true,
        },
{
}

/// A progress file that was not changed is as it was, and one that was is as it was written.
pub proof fn law_updated_contents(contents: Seq<char>, update: String)
    ensures
        project::updated_contents(contents, None) == contents,
        project::updated_contents(contents, Some(update)) == update@,
{
}

} // verus!
