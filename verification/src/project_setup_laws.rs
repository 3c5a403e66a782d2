//! What holds of the setup of a project on a file system.

use vstd::prelude::*;

use crate::project;
use crate::project::GitOutput;
use crate::project_setup;
use crate::project_setup::SetupInput;
use crate::project_setup::SetupPhase;
use crate::project_setup::SetupState;
use crate::project_setup::SetupStep;
use crate::project_setup::SetupWork;
use crate::text;

verus! {

/// The questions of a setup whether something stands at a path, answered by what stands on disk;
/// `n` of them at most.
pub open spec fn answered(
    at: (SetupState, SetupStep),
    disk: Set<Seq<Seq<char>>>,
    n: nat,
) -> (SetupState, SetupStep)
    decreases n,
{
    match at.1 {
        SetupStep::Exists { path } => if n == 0 {
            at
        } else {
            answered(
                at.0.next(SetupInput::Exists(disk.contains(path))),
                disk,
                (n - 1) as nat,
            )
        },
        _ => at,
    }
}

/// Every question that is asked of a number is asked of that number's directory of the day; if
/// nothing stands there, that directory is created, and otherwise the next number is asked of.
pub proof fn law_question_is_about_the_directory(s: SetupState, idx: u32)
    requires
        idx < i32::MAX,
        s.phase == (SetupPhase::Exists { idx }),
    ensures
        s.next(SetupInput::Exists(false)).1 == (SetupStep::CreateDir {
            path: seq![
                ".codexpotter"@,
                "projects"@,
                s.year,
                s.month,
                s.day,
                text::decimal(idx as nat),
            ],
        }),
        s.next(SetupInput::Exists(true)).1 == (SetupStep::Exists {
            path: seq![
                ".codexpotter"@,
                "projects"@,
                s.year,
                s.month,
                s.day,
                text::decimal((idx + 1) as nat),
            ],
        }),
{
    lemma_project_dir(s, idx);
    lemma_project_dir(s, (idx + 1) as u32);
}

proof fn lemma_project_dir(s: SetupState, idx: u32)
    ensures
        s.project_dir(idx) == seq![
            ".codexpotter"@,
            "projects"@,
            s.year,
            s.month,
            s.day,
            text::decimal(idx as nat),
        ],
        s.progress_file(idx) == seq![
            ".codexpotter"@,
            "projects"@,
            s.year,
            s.month,
            s.day,
            text::decimal(idx as nat),
            "MAIN.md"@,
        ],
{
    assert(s.project_dir(idx) =~= seq![
        ".codexpotter"@,
        "projects"@,
        s.year,
        s.month,
        s.day,
        text::decimal(idx as nat),
    ]);
    assert(s.progress_file(idx) =~= seq![
        ".codexpotter"@,
        "projects"@,
        s.year,
        s.month,
        s.day,
        text::decimal(idx as nat),
        "MAIN.md"@,
    ]);
}

proof fn lemma_answers_reach_the_free_number(
    s: SetupState,
    idx: u32,
    free: u32,
    disk: Set<Seq<Seq<char>>>,
)
    requires
        idx <= free < i32::MAX,
        !disk.contains(s.project_dir(free)),
        forall|k: u32| idx <= k < free ==> disk.contains(#[trigger] s.project_dir(k)),
    ensures
        answered(s.try_index(idx), disk, (free - idx + 1) as nat) == (
            s.at(SetupPhase::CreateProject { idx: free }),
            SetupStep::CreateDir { path: s.project_dir(free) },
        ),
    decreases free - idx,
{
    reveal_with_fuel(answered, 2);
    let t = s.try_index(idx);
    assert(t.1 == (SetupStep::Exists { path: s.project_dir(idx) }));
    if idx < free {
        assert(disk.contains(s.project_dir(idx)));
        let u = t.0.next(SetupInput::Exists(true));
        assert(u == s.try_index((idx + 1) as u32));
        lemma_answers_reach_the_free_number(s, (idx + 1) as u32, free, disk);
    }
}

/// A whole setup, on a disk that answers by what stands on it: the projects' directory and the one
/// beside it are created; the directory that is created for the project is the one of the first
/// number of the day at which nothing stands; the progress file is written into it, with the prompt
/// and with what git said of commit and branch; and the file and the commit are handed out.
pub proof fn law_project_is_set_up(
    template: Seq<char>,
    user_prompt: Seq<char>,
    year: Seq<char>,
    month: Seq<char>,
    day: Seq<char>,
    commit: Option<GitOutput>,
    branch: Option<GitOutput>,
    disk: Set<Seq<Seq<char>>>,
    free: u32,
)
    requires
        1 <= free < i32::MAX,
        !disk.contains(
            seq![".codexpotter"@, "projects"@, year, month, day, text::decimal(free as nat)],
        ),
        forall|k: u32|
            1 <= k < free ==> disk.contains(
                seq![
                    ".codexpotter"@,
                    "projects"@,
                    year,
                    month,
                    day,
                    #[trigger] text::decimal(k as nat),
                ],
            ),
    ensures
        ({
            let start = SetupState {
                template,
                user_prompt,
                year,
                month,
                day,
                git_commit: seq![],
                git_branch: seq![],
                phase: SetupPhase::GitCommit,
            };
            let a = start.next(SetupInput::Git(commit));
            let b = a.0.next(SetupInput::Git(branch));
            let c = b.0.next(SetupInput::Done(true));
            let d = c.0.next(SetupInput::Done(true));
            let e = answered(d, disk, free as nat);
            let f = e.0.next(SetupInput::Done(true));
            let g = f.0.next(SetupInput::Done(true));
            let dir = seq![
                ".codexpotter"@,
                "projects"@,
                year,
                month,
                day,
                text::decimal(free as nat),
            ];
            &&& a.1 == (SetupStep::RunGit {
                args: seq!["symbolic-ref"@, "-q"@, "--short"@, "HEAD"@],
            })
            &&& b.1 == (SetupStep::CreateDir { path: seq![".codexpotter"@, "projects"@] })
            &&& c.1 == (SetupStep::CreateDir { path: seq![".codexpotter"@, "kb"@] })
            &&& e.1 == (SetupStep::CreateDir { path: dir })
            &&& f.1 == (SetupStep::Write {
                path: dir.push("MAIN.md"@),
                contents: project::project_main(
                    template,
                    user_prompt,
                    project::or_empty(project::git_answer(commit)),
                    project::or_empty(project::git_answer(branch)),
                    text::occurs(user_prompt, "/potter:xmodel"@),
                ),
            })
            &&& g.1 == (SetupStep::Done {
                progress_file_rel: dir.push("MAIN.md"@),
                git_commit_start: project::or_empty(project::git_answer(commit)),
            })
        }),
{
    let start = SetupState {
        template,
        user_prompt,
        year,
        month,
        day,
        git_commit: seq![],
        git_branch: seq![],
        phase: SetupPhase::GitCommit,
    };
    let a = start.next(SetupInput::Git(commit));
    let b = a.0.next(SetupInput::Git(branch));
    let c = b.0.next(SetupInput::Done(true));
    let s = c.0;
    lemma_project_dir(s, free);
    assert forall|k: u32| 1 <= k < free implies disk.contains(#[trigger] s.project_dir(k)) by {
        lemma_project_dir(s, k);
        assert(disk.contains(
            seq![".codexpotter"@, "projects"@, year, month, day, text::decimal(k as nat)],
        ));
    }
    lemma_answers_reach_the_free_number(s, 1, free, disk);
    let dir = seq![
        ".codexpotter"@,
        "projects"@,
        year,
        month,
        day,
        text::decimal(free as nat),
    ];
    assert(dir.push("MAIN.md"@) =~= s.progress_file(free));
}

/// The number at which the questions of a setup end is free, and every one before it is taken.
proof fn lemma_answers_end_at_a_free_number(
    s: SetupState,
    idx: u32,
    disk: Set<Seq<Seq<char>>>,
    n: nat,
) -> (free: u32)
    requires
        idx + n < i32::MAX,
        !(answered(s.try_index(idx), disk, n).1 is Exists),
    ensures
        idx <= free < i32::MAX,
        answered(s.try_index(idx), disk, n).1 == (SetupStep::CreateDir {
            path: s.project_dir(free),
        }),
        answered(s.try_index(idx), disk, n).0 == s.at(SetupPhase::CreateProject { idx: free }),
        !disk.contains(s.project_dir(free)),
        forall|k: u32| idx <= k < free ==> disk.contains(#[trigger] s.project_dir(k)),
    decreases n,
{
    reveal_with_fuel(answered, 2);
    let t = s.try_index(idx);
    assert(t.1 == (SetupStep::Exists { path: s.project_dir(idx) }));
    if n > 0 && disk.contains(s.project_dir(idx)) {
        let u = t.0.next(SetupInput::Exists(true));
        assert(u == s.try_index((idx + 1) as u32));
        let free = lemma_answers_end_at_a_free_number(s, (idx + 1) as u32, disk, (n - 1) as nat);
        assert forall|k: u32| idx <= k < free implies disk.contains(
            #[trigger] s.project_dir(k),
        ) by {
            if k > idx {
                assert((idx + 1) as u32 <= k);
            }
        }
        free
    } else {
        idx
    }
}

/// Whatever stands on disk: once a setup that began to ask has no more questions, it creates a
/// directory at which nothing stood, while at every lower number of the day something stood; and
/// the progress file goes into that directory.
pub proof fn law_created_directory_is_new(s: SetupState, disk: Set<Seq<Seq<char>>>, n: nat) -> (
    free: u32)
    requires
        s.phase is CreateKb,
        n < i32::MAX - 1,
        !(answered(s.next(SetupInput::Done(true)), disk, n).1 is Exists),
    ensures
        ({
            let (t, created) = answered(s.next(SetupInput::Done(true)), disk, n);
            let dir = seq![
                ".codexpotter"@,
                "projects"@,
                s.year,
                s.month,
                s.day,
                text::decimal(free as nat),
            ];
            &&& 1 <= free < i32::MAX
            &&& created == (SetupStep::CreateDir { path: dir })
            &&& !disk.contains(dir)
            &&& forall|k: u32|
                1 <= k < free ==> disk.contains(
                    seq![
                        ".codexpotter"@,
                        "projects"@,
                        s.year,
                        s.month,
                        s.day,
                        #[trigger] text::decimal(k as nat),
                    ],
                )
            &&& match t.next(SetupInput::Done(true)).1 {
                SetupStep::Write { path, .. } => path == dir.push("MAIN.md"@),
                _ => false,
            }
        }),
{
    let free = lemma_answers_end_at_a_free_number(s, 1, disk, n);
    lemma_project_dir(s, free);
    let dir = seq![
        ".codexpotter"@,
        "projects"@,
        s.year,
        s.month,
        s.day,
        text::decimal(free as nat),
    ];
    assert(dir.push("MAIN.md"@) =~= s.progress_file(free));
    assert forall|k: u32| 1 <= k < free implies disk.contains(
        seq![
            ".codexpotter"@,
            "projects"@,
            s.year,
            s.month,
            s.day,
            #[trigger] text::decimal(k as nat),
        ],
    ) by {
        lemma_project_dir(s, k);
        assert(disk.contains(s.project_dir(k)));
    }
    free
}

/// Work that fails ends the setup with the kind of work and with the very path that was asked for.
pub proof fn law_failure_names_its_path(s: SetupState, input: SetupInput)
    requires
        s.fits(input),
    ensures
        ({
            let (t, asked) = s.next(input);
            let (u, failed) = t.next(SetupInput::Done(false));
            match asked {
                SetupStep::CreateDir { path } => {
                    &&& failed == (SetupStep::Failed { work: SetupWork::Create, path })
                    &&& u.phase is Ended
                },
                SetupStep::Write { path, .. } => {
                    &&& failed == (SetupStep::Failed { work: SetupWork::Write, path })
                    &&& u.phase is Ended
                },
                _ => true,
            }
        }),
{
}

/// What is said of work that failed.
pub proof fn law_failure_wording()
    ensures
        SetupWork::Create.prefix() == "create "@,
        SetupWork::Write.prefix() == "write "@,
{
}

/// Whatever comes back for what a setup asks for can be handed in, but that a number after the last
/// one is not asked of; and a setup is over once it is done or failed.
pub proof fn law_every_result_can_be_handed_in(s: SetupState, input: SetupInput, result: SetupInput)
    requires
        s.fits(input),
        s.phase matches SetupPhase::Exists { idx } ==> idx < i32::MAX - 1,
    ensures
        ({
            let (t, step) = s.next(input);
            t.fits(result) <==> match step {
                SetupStep::RunGit { .. } => result is Git,
                SetupStep::CreateDir { .. } => result is Done,
                SetupStep::Exists { .. } => result is Exists,
                SetupStep::Write { .. } => result is Done,
                SetupStep::Done { .. } => false,
                SetupStep::Failed { .. } => false,
            }
        }),
{
}

/// A setup keeps to its template, its prompt and its day, and what git said is not forgotten.
pub proof fn law_setup_keeps_to_its_project(s: SetupState, input: SetupInput)
    ensures
        ({
            let t = s.next(input).0;
            &&& t.template == s.template
            &&& t.user_prompt == s.user_prompt
            &&& t.year == s.year && t.month == s.month && t.day == s.day
            &&& !(s.phase is GitCommit) ==> t.git_commit == s.git_commit
            &&& !(s.phase is GitBranch) ==> t.git_branch == s.git_branch
        }),
{
}

/// A number that is padded keeps its digits, and has zeros before them up to the width.
pub proof fn law_zero_padded(n: nat, width: nat)
    ensures
        ({
            let s = project_setup::zero_padded(n, width);
            let k = s.len() - text::decimal(n).len();
            &&& s.len() == if text::decimal(n).len() < width {
                width
            } else {
                text::decimal(n).len()
            }
            &&& s.skip(k) == text::decimal(n)
            &&& forall|i: int| 0 <= i < k ==> s[i] == '0'
        }),
{
    let s = project_setup::zero_padded(n, width);
    let k = s.len() - text::decimal(n).len();
    assert(s.skip(k) =~= text::decimal(n));
}

/// The days of the calendar: thirty-one in most months, thirty in April, June, September and
/// November, and in February twenty-eight, with one more in every fourth year, but not in those of
/// the hundreds that are not of the four hundreds.
pub proof fn law_calendar(year: int, month: int, day: int)
    ensures
        project_setup::is_date(year, month, day) ==> 1 <= month <= 12 && 1 <= day <= 31,
        1 <= month <= 12 && 1 <= day <= 28 ==> project_setup::is_date(year, month, day),
        project_setup::is_date(year, month, 31) <==> (month == 1 || month == 3 || month == 5
            || month == 7 || month == 8 || month == 10 || month == 12),
        project_setup::is_date(year, month, 30) <==> 1 <= month <= 12 && month != 2,
        1 <= month <= 12 && month != 2 ==> project_setup::is_date(year, month, 29),
        project_setup::is_date(year, 2, 29) <==> (year % 400 == 0 || (year % 4 == 0 && year % 100
            != 0)),
{
}

/// A year of four digits is written with them, and any other with a sign before its digits.
pub proof fn law_year_text(year: int)
    ensures
        0 <= year <= 9999 ==> project_setup::year_text(year) == project_setup::zero_padded(
            year as nat,
            4,
        ),
        year < 0 ==> project_setup::year_text(year)[0] == '-' && project_setup::year_text(
            year,
        ).skip(1) == project_setup::zero_padded((-year) as nat, 4),
        year > 9999 ==> project_setup::year_text(year)[0] == '+' && project_setup::year_text(
            year,
        ).skip(1) == project_setup::zero_padded(year as nat, 4),
{
    if year < 0 {
        assert(project_setup::year_text(year).skip(1) =~= project_setup::zero_padded(
            (-year) as nat,
            4,
        ));
    } else if year > 9999 {
        assert(project_setup::year_text(year).skip(1) =~= project_setup::zero_padded(
            year as nat,
            4,
        ));
    }
}

/// Whenever a setup asks whether something stands at a path, that path is the directory of the
/// number that it is at; where the answer is no, that very directory is created, and the progress
/// file is written into it.
pub proof fn law_what_is_asked_of_is_what_is_created(s: SetupState, input: SetupInput)
    requires
        s.fits(input),
        s.next(input).1 is Exists,
    ensures
        ({
            let (t, asked) = s.next(input);
            let path = asked->Exists_path;
            let (u, created) = t.next(SetupInput::Exists(false));
            let (_, written) = u.next(SetupInput::Done(true));
            &&& match t.phase {
                SetupPhase::Exists { idx } => path == seq![
                    ".codexpotter"@,
                    "projects"@,
                    s.year,
                    s.month,
                    s.day,
                    text::decimal(idx as nat),
                ],
                _ => false,
            }
            &&& created == (SetupStep::CreateDir { path })
            &&& written is Write && written->Write_path == path.push("MAIN.md"@)
        }),
{
    let t = s.next(input).0;
    if let SetupPhase::Exists { idx } = t.phase {
        lemma_project_dir(t, idx);
        assert(t.progress_file(idx) =~= t.project_dir(idx).push("MAIN.md"@));
    }
}

} // verus!
