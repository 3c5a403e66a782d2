//! Projects: how one is set up, and what its progress file says.
//!
//! A project is a directory `.codexpotter/projects/YYYY/MM/DD/N` with a progress file `MAIN.md` in
//! it. Files are read and written, and git is run, outside; what they hold is decided here.

use std::path::PathBuf;

use vstd::prelude::*;

use crate::front_matter;
use crate::front_matter::FrontMatterError;
use crate::front_matter::FrontMatterFault;
use crate::front_matter_laws;
use crate::text;

verus! {

/// In a prompt, asks for cross-model review.
pub const POTTER_XMODEL_MARKER: &'static str = "/potter:xmodel";

/// The marker as it is taken out of a prompt.
pub const POTTER_XMODEL_MARKER_WITH_TRAILING_SPACE: &'static str = "/potter:xmodel ";

/// In the template of a progress file, stands for the front matter of cross-model review.
pub const POTTER_XMODEL_FRONT_MATTER_PLACEHOLDER: &'static str = "{{POTTER_XMODEL_FRONT_MATTER}}";

/// A project that was set up.
#[derive(Debug, Clone)]
pub struct ProjectInit {
    pub progress_file_rel: PathBuf,
    pub git_commit_start: String,
}

/// What a run of git left behind.
#[derive(Debug, Clone)]
pub struct GitOutput {
    pub success: bool,
    pub stdout: Vec<u8>,
}

/// Bytes as text, where what is no UTF-8 is replaced.
pub uninterp spec fn lossy_text(bytes: Seq<u8>) -> Seq<char>;

/// `String::from_utf8_lossy`: the text of some bytes. Of bytes that are UTF-8 it is stated that
/// they are decoded; of others nothing is stated but that the text is a function of the bytes.
#[verifier::external_body]
fn text_of_bytes(bytes: &[u8]) -> (r: String)
    ensures
        r@ == lossy_text(bytes@),
        vstd::utf8::valid_utf8(bytes@) ==> r@ == vstd::utf8::decode_utf8(bytes@),
{
    String::from_utf8_lossy(bytes).into_owned()
}

/// What git printed, where it succeeded and printed anything but white space.
pub open spec fn git_answer(output: Option<GitOutput>) -> Option<Seq<char>> {
    match output {
        Some(o) => git_text(o.success, lossy_text(o.stdout@)),
        None => None,
    }
}

/// What git printed, as text, where it succeeded and printed anything but white space.
pub open spec fn git_text(success: bool, stdout: Seq<char>) -> Option<Seq<char>> {
    if success && text::trim(stdout).len() > 0 {
        Some(text::trim(stdout))
    } else {
        None
    }
}

/// A text, and the empty text where there is none.
pub open spec fn or_empty(s: Option<Seq<char>>) -> Seq<char> {
    match s {
        Some(t) => t,
        None => seq![],
    }
}

/// What git printed, as text, without white space around it.
pub fn git_text_trimmed(success: bool, stdout: &str) -> (r: Option<String>)
    ensures
        text::opt_text(r) == git_text(success, stdout@),
{
    let chars = text::chars_of(stdout);
    let trimmed = text::trim_of(chars.as_slice());
    if !success || trimmed.len() == 0 {
        return None;
    }
    Some(text::string_of(trimmed))
}

/// What git printed, without white space around it; nothing where git could not be run, failed,
/// or printed nothing.
pub fn git_stdout_trimmed(output: &Option<GitOutput>) -> (r: Option<String>)
    ensures
        text::opt_text(r) == git_answer(*output),
{
    match output {
        Some(o) => {
            let stdout = text_of_bytes(o.stdout.as_slice());
            git_text_trimmed(o.success, stdout.as_str())
        },
        None => None,
    }
}

/// The arguments with which git tells the current commit.
pub fn git_commit_args() -> (r: Vec<String>)
    ensures
        text::texts(r@) == seq!["rev-parse"@, "HEAD"@],
{
    let r = vec!["rev-parse".to_owned(), "HEAD".to_owned()];
    assert(text::texts(r@) =~= seq!["rev-parse"@, "HEAD"@]);
    r
}

/// The arguments with which git tells the current branch.
pub fn git_branch_args() -> (r: Vec<String>)
    ensures
        text::texts(r@) == seq!["symbolic-ref"@, "-q"@, "--short"@, "HEAD"@],
{
    let r = vec![
        "symbolic-ref".to_owned(),
        "-q".to_owned(),
        "--short".to_owned(),
        "HEAD".to_owned(),
    ];
    assert(text::texts(r@) =~= seq!["symbolic-ref"@, "-q"@, "--short"@, "HEAD"@]);
    r
}

/// The current commit, from what git printed; empty where there is none.
pub fn resolve_git_commit(output: &Option<GitOutput>) -> (r: String)
    ensures
        r@ == or_empty(git_answer(*output)),
{
    match git_stdout_trimmed(output) {
        Some(s) => s,
        None => String::new(),
    }
}

/// The current branch, from what git printed; nothing outside of a repository, on a detached
/// `HEAD`, or without git.
pub fn resolve_git_branch(output: &Option<GitOutput>) -> (r: Option<String>)
    ensures
        text::opt_text(r) == git_answer(*output),
{
    git_stdout_trimmed(output)
}

/// The current commit and branch; empty where there is none.
pub fn resolve_git_metadata(commit: &Option<GitOutput>, branch: &Option<GitOutput>) -> (r: (
    String,
    String,
))
    ensures
        r.0@ == or_empty(git_answer(*commit)),
        r.1@ == or_empty(git_answer(*branch)),
{
    let git_commit = resolve_git_commit(commit);
    let git_branch = match git_stdout_trimmed(branch) {
        Some(s) => s,
        None => String::new(),
    };
    (git_commit, git_branch)
}

/// The front matter of cross-model review.
pub open spec fn xmodel_front_matter(potter_xmodel: bool) -> Seq<char> {
    if potter_xmodel {
        "potter.xmodel: true"@
    } else {
        ""@
    }
}

/// The progress file of a new project. The placeholders are filled one after the other, the prompt
/// last, so that nothing in the prompt is taken for a placeholder.
pub open spec fn project_main(
    template: Seq<char>,
    user_prompt: Seq<char>,
    git_commit: Seq<char>,
    git_branch: Seq<char>,
    potter_xmodel: bool,
) -> Seq<char> {
    text::replace(
        with_front_matter(template, git_commit, git_branch, potter_xmodel),
        "{{USER_PROMPT}}"@,
        stated_goal(user_prompt),
    )
}

/// The template of a progress file with everything filled in but the goal.
pub open spec fn with_front_matter(
    template: Seq<char>,
    git_commit: Seq<char>,
    git_branch: Seq<char>,
    potter_xmodel: bool,
) -> Seq<char> {
    let a = text::replace(template, "{{GIT_COMMIT}}"@, front_matter::escaped(git_commit));
    let b = text::replace(a, "{{GIT_BRANCH}}"@, front_matter::escaped(git_branch));
    text::replace(
        b,
        POTTER_XMODEL_FRONT_MATTER_PLACEHOLDER@,
        xmodel_front_matter(potter_xmodel),
    )
}

/// What a prompt asks for, without the marker and the space after it.
pub open spec fn stated_goal(user_prompt: Seq<char>) -> Seq<char> {
    text::replace(user_prompt, POTTER_XMODEL_MARKER_WITH_TRAILING_SPACE@, ""@)
}

/// [`text::replace`] on strings.
fn replace_str(s: &str, pat: &str, to: &str) -> (r: String)
    requires
        pat@.len() > 0,
    ensures
        r@ == text::replace(s@, pat@, to@),
{
    let chars = text::chars_of(s);
    let pattern = text::chars_of(pat);
    let replacement = text::chars_of(to);
    let replaced = text::replace_in(chars.as_slice(), pattern.as_slice(), replacement.as_slice());
    text::string_of(replaced.as_slice())
}

/// Whether a prompt asks for cross-model review.
pub fn requests_potter_xmodel(user_prompt: &str) -> (r: bool)
    ensures
        r == text::occurs(user_prompt@, POTTER_XMODEL_MARKER@),
{
    let chars = text::chars_of(user_prompt);
    let marker = text::chars_of(POTTER_XMODEL_MARKER);
    text::occurs_in(chars.as_slice(), marker.as_slice())
}

/// The progress file of a new project, from its template.
pub fn render_project_main(
    template: &str,
    user_prompt: &str,
    git_commit: &str,
    git_branch: &str,
    potter_xmodel: bool,
) -> (r: String)
    ensures
        r@ == project_main(template@, user_prompt@, git_commit@, git_branch@, potter_xmodel),
{
    proof {
        reveal_strlit("{{GIT_COMMIT}}");
        reveal_strlit("{{GIT_BRANCH}}");
        reveal_strlit("{{POTTER_XMODEL_FRONT_MATTER}}");
        reveal_strlit("{{USER_PROMPT}}");
        reveal_strlit("/potter:xmodel ");
    }
    let commit = front_matter::yaml_escape_double_quoted(git_commit);
    let branch = front_matter::yaml_escape_double_quoted(git_branch);
    let prompt = replace_str(user_prompt, POTTER_XMODEL_MARKER_WITH_TRAILING_SPACE, "");
    let xmodel = if potter_xmodel {
        "potter.xmodel: true"
    } else {
        ""
    };
    let a = replace_str(template, "{{GIT_COMMIT}}", commit.as_str());
    let b = replace_str(a.as_str(), "{{GIT_BRANCH}}", branch.as_str());
    let c = replace_str(b.as_str(), POTTER_XMODEL_FRONT_MATTER_PLACEHOLDER, xmodel);
    replace_str(c.as_str(), "{{USER_PROMPT}}", prompt.as_str())
}

/// The developer prompt, from its template, with the path of the progress file filled in.
pub fn render_developer_prompt(template: &str, progress_file_rel: &str) -> (r: String)
    ensures
        r@ == text::replace(template@, "{{PROGRESS_FILE}}"@, progress_file_rel@),
{
    proof {
        reveal_strlit("{{PROGRESS_FILE}}");
    }
    replace_str(template, "{{PROGRESS_FILE}}", progress_file_rel)
}

/// A boolean of the front matter, where a missing one counts as false.
pub open spec fn flag(contents: Seq<char>, key: Seq<char>) -> Result<bool, FrontMatterFault> {
    match front_matter::read_bool(contents, key) {
        Ok(Some(b)) => Ok(b),
        Ok(None) => Ok(false),
        Err(e) => Err(e),
    }
}

/// [`flag`] of a progress file.
fn read_flag(contents: &str, key: &str) -> (r: Result<bool, FrontMatterError>)
    ensures
        match r {
            Ok(b) => flag(contents@, key@) == Ok::<bool, FrontMatterFault>(b),
            Err(e) => flag(contents@, key@) == Err::<bool, FrontMatterFault>(e@),
        },
{
    match front_matter::front_matter_bool(contents, key) {
        Ok(Some(b)) => Ok(b),
        Ok(None) => Ok(false),
        Err(e) => Err(e),
    }
}

/// Whether a progress file asks for cross-model review.
pub fn progress_file_potter_xmodel_enabled(contents: &str) -> (r: Result<bool, FrontMatterError>)
    ensures
        match r {
            Ok(b) => flag(contents@, "potter.xmodel"@) == Ok::<bool, FrontMatterFault>(b),
            Err(e) => flag(contents@, "potter.xmodel"@) == Err::<bool, FrontMatterFault>(e@),
        },
{
    read_flag(contents, "potter.xmodel")
}

/// Whether cross-model review is on: asked for on the command line, which is never written down,
/// or in the progress file. The progress file has to be well-formed either way.
pub fn effective_potter_xmodel_enabled(contents: &str, runtime_potter_xmodel: bool) -> (r: Result<
    bool,
    FrontMatterError,
>)
    ensures
        match flag(contents@, "potter.xmodel"@) {
            Ok(persisted) => r matches Ok(b) && b == (runtime_potter_xmodel || persisted),
            Err(fault) => r matches Err(e) && e@ == fault,
        },
{
    match progress_file_potter_xmodel_enabled(contents) {
        Ok(persisted) => Ok(runtime_potter_xmodel || persisted),
        Err(e) => Err(e),
    }
}

/// Whether a progress file says that the project is finished.
pub fn progress_file_has_finite_incantatem_true(contents: &str) -> (r: Result<
    bool,
    FrontMatterError,
>)
    ensures
        match r {
            Ok(b) => flag(contents@, "finite_incantatem"@) == Ok::<bool, FrontMatterFault>(b),
            Err(e) => flag(contents@, "finite_incantatem"@) == Err::<bool, FrontMatterFault>(e@),
        },
{
    read_flag(contents, "finite_incantatem")
}

/// The contents of a progress file after an update.
pub open spec fn updated_contents(contents: Seq<char>, update: Option<String>) -> Seq<char> {
    match update {
        Some(s) => s@,
        None => contents,
    }
}

/// Say in a progress file whether the project is finished: the new contents, if they differ. Every
/// file with an opening and a closing `---` line says so afterwards.
pub fn set_progress_file_finite_incantatem(contents: &str, value: bool) -> (r: Result<
    Option<String>,
    FrontMatterError,
>)
    ensures
        match front_matter::put_bool(contents@, "finite_incantatem"@, value) {
            Ok(updated) => r matches Ok(out) && text::opt_text(out) == if updated == contents@ {
                None
            } else {
                Some(updated)
            },
            Err(fault) => r matches Err(e) && e@ == fault,
        },
        r is Ok <==> front_matter::delimiters(contents@) is Ok,
        match r {
            Ok(out) => front_matter::read_bool(
                updated_contents(contents@, out),
                "finite_incantatem"@,
            ) == Ok::<Option<bool>, FrontMatterFault>(Some(value)),
            Err(_) => true,
        },
{
    proof {
        reveal_strlit("finite_incantatem");
        if front_matter::put_bool(contents@, "finite_incantatem"@, value) is Ok {
            front_matter_laws::law_put_then_read(contents@, "finite_incantatem"@, value);
        }
    }
    match front_matter::put_front_matter_bool(contents, "finite_incantatem", value) {
        Ok(updated) => if text::same_str(updated.as_str(), contents) {
            Ok(None)
        } else {
            Ok(Some(updated))
        },
        Err(e) => Err(e),
    }
}

/// The commit at which a project started, as its progress file says; empty where it does not say.
pub open spec fn recorded_commit(contents: Seq<char>) -> Result<Seq<char>, FrontMatterFault> {
    match front_matter::delimiters(contents) {
        Ok(_) => Ok(or_empty(front_matter::read_string(contents, "git_commit"@))),
        Err(e) => Err(e),
    }
}

/// [`recorded_commit`] of a progress file.
pub fn progress_file_git_commit_start(contents: &str) -> (r: Result<String, FrontMatterError>)
    ensures
        match r {
            Ok(s) => recorded_commit(contents@) == Ok::<Seq<char>, FrontMatterFault>(s@),
            Err(e) => recorded_commit(contents@) == Err::<Seq<char>, FrontMatterFault>(e@),
        },
{
    match front_matter::check_delimiters(contents) {
        Err(e) => Err(e),
        Ok(_) => match front_matter::front_matter_string(contents, "git_commit") {
            Some(s) => Ok(s),
            None => Ok(String::new()),
        },
    }
}

/// A text of the front matter, where one of white space alone counts as none.
pub open spec fn non_blank(contents: Seq<char>, key: Seq<char>) -> Result<
    Option<Seq<char>>,
    FrontMatterFault,
> {
    match front_matter::delimiters(contents) {
        Ok(_) => match front_matter::read_string(contents, key) {
            Some(v) => if text::trim(v).len() > 0 {
                Ok(Some(text::trim(v)))
            } else {
                Ok(None)
            },
            None => Ok(None),
        },
        Err(e) => Err(e),
    }
}

/// [`non_blank`] of a progress file.
pub fn read_progress_file_front_matter_string(contents: &str, key: &str) -> (r: Result<
    Option<String>,
    FrontMatterError,
>)
    ensures
        match r {
            Ok(v) => non_blank(contents@, key@) == Ok::<Option<Seq<char>>, FrontMatterFault>(
                text::opt_text(v),
            ),
            Err(e) => non_blank(contents@, key@) == Err::<Option<Seq<char>>, FrontMatterFault>(e@),
        },
{
    match front_matter::check_delimiters(contents) {
        Err(e) => {
            return Err(e);
        },
        Ok(_) => {},
    }
    match front_matter::front_matter_string(contents, key) {
        Some(v) => {
            let chars = text::chars_of(v.as_str());
            let trimmed = text::trim_of(chars.as_slice());
            if trimmed.len() == 0 {
                Ok(None)
            } else {
                Ok(Some(text::string_of(trimmed)))
            }
        },
        None => Ok(None),
    }
}

/// The short title of a project, as its progress file says.
pub fn progress_file_short_title(contents: &str) -> (r: Result<Option<String>, FrontMatterError>)
    ensures
        match r {
            Ok(v) => non_blank(contents@, "short_title"@) == Ok::<
                Option<Seq<char>>,
                FrontMatterFault,
            >(text::opt_text(v)),
            Err(e) => non_blank(contents@, "short_title"@) == Err::<
                Option<Seq<char>>,
                FrontMatterFault,
            >(e@),
        },
{
    read_progress_file_front_matter_string(contents, "short_title")
}

/// The branch of a project, as its progress file says.
pub fn progress_file_git_branch(contents: &str) -> (r: Result<Option<String>, FrontMatterError>)
    ensures
        match r {
            Ok(v) => non_blank(contents@, "git_branch"@) == Ok::<
                Option<Seq<char>>,
                FrontMatterFault,
            >(text::opt_text(v)),
            Err(e) => non_blank(contents@, "git_branch"@) == Err::<
                Option<Seq<char>>,
                FrontMatterFault,
            >(e@),
        },
{
    read_progress_file_front_matter_string(contents, "git_branch")
}

/// A project that was said to be finished, or not to be, is read so afterwards; and nothing else
/// that is read from the file changes.
pub proof fn law_finite_incantatem_reads_back(contents: Seq<char>, value: bool, other: Seq<char>)
    requires
        front_matter::put_bool(contents, "finite_incantatem"@, value) is Ok,
        other != "finite_incantatem"@,
    ensures
        ({
            let out = front_matter::put_bool(contents, "finite_incantatem"@, value)->Ok_0;
            &&& flag(out, "finite_incantatem"@) == Ok::<bool, FrontMatterFault>(value)
            &&& flag(out, other) == flag(contents, other)
            &&& non_blank(out, other) == non_blank(contents, other)
        }),
{
    reveal_strlit("finite_incantatem");
    front_matter_laws::law_put_then_read(contents, "finite_incantatem"@, value);
    front_matter_laws::law_put_keeps_other_keys(contents, "finite_incantatem"@, value, other);
}

/// Where the template has a place for the goal once everything else is filled in, the goal stands
/// in the progress file as it was stated: nothing in it is taken for a placeholder.
pub proof fn law_goal_is_kept(
    template: Seq<char>,
    user_prompt: Seq<char>,
    git_commit: Seq<char>,
    git_branch: Seq<char>,
    potter_xmodel: bool,
)
    requires
        text::occurs(
            with_front_matter(template, git_commit, git_branch, potter_xmodel),
            "{{USER_PROMPT}}"@,
        ),
    ensures
        text::occurs(
            project_main(template, user_prompt, git_commit, git_branch, potter_xmodel),
            stated_goal(user_prompt),
        ),
{
    reveal_strlit("{{USER_PROMPT}}");
    text::lemma_replacement_occurs(
        with_front_matter(template, git_commit, git_branch, potter_xmodel),
        "{{USER_PROMPT}}"@,
        stated_goal(user_prompt),
    );
}

} // verus!
