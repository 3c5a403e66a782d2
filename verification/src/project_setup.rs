//! Setting up a new project on disk.
//!
//! A project gets the first number of its day that is still free. The file system is looked at
//! and changed, and git is run, outside: [`ProjectSetup::start`] and [`ProjectSetup::step`] say
//! what is to be done next.

use vstd::prelude::*;

use crate::project;
use crate::project::GitOutput;
use crate::text;

verus! {

/// The number of days of a month.
pub open spec fn days_in_month(year: int, month: int) -> int {
    if month == 2 {
        if year % 4 == 0 && (year % 100 != 0 || year % 400 == 0) {
            29
        } else {
            28
        }
    } else if month == 4 || month == 6 || month == 9 || month == 11 {
        30
    } else {
        31
    }
}

/// A day of the calendar.
pub open spec fn is_date(year: int, month: int, day: int) -> bool {
    1 <= month <= 12 && 1 <= day <= days_in_month(year, month)
}

/// `n` in decimal notation, with zeros in front up to `width` digits.
pub open spec fn zero_padded(n: nat, width: nat) -> Seq<char> {
    let digits = text::decimal(n);
    Seq::new(
        (if digits.len() < width {
            width - digits.len()
        } else {
            0
        }) as nat,
        |i: int| '0',
    ) + digits
}

/// A year, with four digits; with a sign where four digits do not do.
pub open spec fn year_text(year: int) -> Seq<char> {
    if 0 <= year <= 9999 {
        zero_padded(year as nat, 4)
    } else if year < 0 {
        seq!['-'] + zero_padded((-year) as nat, 4)
    } else {
        seq!['+'] + zero_padded(year as nat, 4)
    }
}

/// A part of a date.
#[derive(Debug, Clone, Copy, PartialEq, Eq, Structural)]
pub enum DatePart {
    Year,
    Month,
    Day,
}

/// The format string of a part of a date.
pub open spec fn part_format(part: DatePart) -> Seq<char> {
    match part {
        DatePart::Year => "%Y"@,
        DatePart::Month => "%m"@,
        DatePart::Day => "%d"@,
    }
}

/// A part of a date, as text.
pub open spec fn part_text(year: int, month: int, day: int, part: DatePart) -> Seq<char> {
    match part {
        DatePart::Year => year_text(year),
        DatePart::Month => zero_padded(month as nat, 2),
        DatePart::Day => zero_padded(day as nat, 2),
    }
}

/// `chrono::NaiveDate::from_ymd_opt` and `chrono::NaiveDate::format`: a part of a date as text,
/// with the formats `%Y`, `%m` and `%d`. There is a text for every day of the calendar in the years
/// from -200000 to 200000, and for nothing that is no day of the calendar.
#[verifier::external_body]
fn format_date(year: i32, month: u32, day: u32, part: DatePart, format: &str) -> (r: Option<String>)
    requires
        format@ == part_format(part),
    ensures
        !is_date(year as int, month as int, day as int) ==> r is None,
        is_date(year as int, month as int, day as int) && -200000 <= year <= 200000 ==> r is Some,
        r matches Some(s) ==> s@ == part_text(year as int, month as int, day as int, part),
{
    let date = chrono::NaiveDate::from_ymd_opt(year, month, day);
    date.map(|date| date.format(format).to_string())
}

/// The directories of a day: year, month, day.
#[derive(Debug, Clone)]
pub struct DayParts {
    pub year: String,
    pub month: String,
    pub day: String,
}

/// The directories of a day.
pub fn day_parts(year: i32, month: u32, day: u32) -> (r: Option<DayParts>)
    ensures
        !is_date(year as int, month as int, day as int) ==> r is None,
        is_date(year as int, month as int, day as int) && -200000 <= year <= 200000 ==> r is Some,
        r matches Some(p) ==> {
            &&& p.year@ == year_text(year as int)
            &&& p.month@ == zero_padded(month as nat, 2)
            &&& p.day@ == zero_padded(day as nat, 2)
        },
{
    let y = format_date(year, month, day, DatePart::Year, "%Y");
    let m = format_date(year, month, day, DatePart::Month, "%m");
    let d = format_date(year, month, day, DatePart::Day, "%d");
    match (y, m, d) {
        (Some(year), Some(month), Some(day)) => Some(DayParts { year, month, day }),
        _ => None,
    }
}

/// A step of the setup that can fail.
#[derive(Debug, Clone, Copy, PartialEq, Eq, Structural)]
pub enum SetupWork {
    Create,
    Write,
}

impl SetupWork {
    /// What is said of a step that failed, before the path.
    pub open spec fn prefix(self) -> Seq<char> {
        match self {
            SetupWork::Create => "create "@,
            SetupWork::Write => "write "@,
        }
    }

    /// What is said of a step that failed on `path`.
    pub fn context(self, path: &str) -> (r: String)
        ensures
            r@ == self.prefix() + path@,
    {
        let mut out = match self {
            SetupWork::Create => "create ".to_owned(),
            SetupWork::Write => "write ".to_owned(),
        };
        out.append(path);
        out
    }
}

/// Outside work that the setup asks for. Paths are given below the working directory, component
/// by component.
#[derive(Debug)]
pub enum SetupAction {
    /// Run git with these arguments in the working directory.
    RunGit { args: Vec<String> },
    /// Create a directory, and those above it.
    CreateDir { path: Vec<String> },
    /// Find out whether something stands at this path.
    Exists { path: Vec<String> },
    /// Write a file.
    Write { path: Vec<String>, contents: String },
    /// The project is set up.
    Done { progress_file_rel: Vec<String>, git_commit_start: String },
    /// The project cannot be set up: this failed, at this path.
    Failed { work: SetupWork, path: Vec<String> },
}

/// The result of outside work.
#[derive(Debug)]
pub enum SetupInput {
    /// Of `RunGit`; nothing where git could not be run.
    Git(Option<GitOutput>),
    /// Of `CreateDir` and `Write`: whether it worked.
    Done(bool),
    /// Of `Exists`.
    Exists(bool),
}

/// What the setup is waiting for.
#[derive(Debug, Clone, Copy, PartialEq, Eq, Structural)]
pub enum SetupPhase {
    GitCommit,
    GitBranch,
    CreateProjects,
    CreateKb,
    Exists { idx: u32 },
    CreateProject { idx: u32 },
    Write { idx: u32 },
    Ended,
}

/// Setting up a project.
#[derive(Debug)]
pub struct ProjectSetup {
    template: String,
    user_prompt: String,
    date: DayParts,
    git_commit: String,
    git_branch: String,
    phase: SetupPhase,
}

/// The state of a setup, mathematically.
pub struct SetupState {
    pub template: Seq<char>,
    pub user_prompt: Seq<char>,
    pub year: Seq<char>,
    pub month: Seq<char>,
    pub day: Seq<char>,
    pub git_commit: Seq<char>,
    pub git_branch: Seq<char>,
    pub phase: SetupPhase,
}

/// The mathematical counterpart of [`SetupAction`].
pub enum SetupStep {
    RunGit { args: Seq<Seq<char>> },
    CreateDir { path: Seq<Seq<char>> },
    Exists { path: Seq<Seq<char>> },
    Write { path: Seq<Seq<char>>, contents: Seq<char> },
    Done { progress_file_rel: Seq<Seq<char>>, git_commit_start: Seq<char> },
    Failed { work: SetupWork, path: Seq<Seq<char>> },
}

impl View for SetupAction {
    type V = SetupStep;

    open spec fn view(&self) -> SetupStep {
        match *self {
            SetupAction::RunGit { args } => SetupStep::RunGit { args: text::texts(args@) },
            SetupAction::CreateDir { path } => SetupStep::CreateDir { path: text::texts(path@) },
            SetupAction::Exists { path } => SetupStep::Exists { path: text::texts(path@) },
            SetupAction::Write { path, contents } => SetupStep::Write {
                path: text::texts(path@),
                contents: contents@,
            },
            SetupAction::Done { progress_file_rel, git_commit_start } => SetupStep::Done {
                progress_file_rel: text::texts(progress_file_rel@),
                git_commit_start: git_commit_start@,
            },
            SetupAction::Failed { work, path } => SetupStep::Failed {
                work,
                path: text::texts(path@),
            },
        }
    }
}

impl View for ProjectSetup {
    type V = SetupState;

    closed spec fn view(&self) -> SetupState {
        SetupState {
            template: self.template@,
            user_prompt: self.user_prompt@,
            year: self.date.year@,
            month: self.date.month@,
            day: self.date.day@,
            git_commit: self.git_commit@,
            git_branch: self.git_branch@,
            phase: self.phase,
        }
    }
}

impl SetupState {
    /// The directory of all projects.
    pub open spec fn projects_root() -> Seq<Seq<char>> {
        seq![".codexpotter"@, "projects"@]
    }

    /// The directory of project `idx` of the day.
    pub open spec fn project_dir(self, idx: u32) -> Seq<Seq<char>> {
        SetupState::projects_root() + seq![
            self.year,
            self.month,
            self.day,
            text::decimal(idx as nat),
        ]
    }

    /// The progress file of project `idx` of the day.
    pub open spec fn progress_file(self, idx: u32) -> Seq<Seq<char>> {
        self.project_dir(idx).push("MAIN.md"@)
    }

    /// In another phase.
    pub open spec fn at(self, phase: SetupPhase) -> SetupState {
        SetupState { phase, ..self }
    }

    /// Look whether project `idx` of the day is free.
    pub open spec fn try_index(self, idx: u32) -> (SetupState, SetupStep) {
        (
            self.at(SetupPhase::Exists { idx }),
            SetupStep::Exists { path: self.project_dir(idx) },
        )
    }

    /// The setup failed.
    pub open spec fn failed(self, work: SetupWork, path: Seq<Seq<char>>) -> (
        SetupState,
        SetupStep,
    ) {
        (self.at(SetupPhase::Ended), SetupStep::Failed { work, path })
    }

    /// The directory of what is known beside the projects.
    pub open spec fn kb_dir() -> Seq<Seq<char>> {
        seq![".codexpotter"@, "kb"@]
    }

    /// The input is the result of what was asked for, and there is a next number to try.
    pub open spec fn fits(self, input: SetupInput) -> bool {
        match self.phase {
            SetupPhase::GitCommit => input is Git,
            SetupPhase::GitBranch => input is Git,
            SetupPhase::CreateProjects => input is Done,
            SetupPhase::CreateKb => input is Done,
            SetupPhase::Exists { idx } => input is Exists && idx < i32::MAX,
            SetupPhase::CreateProject { .. } => input is Done,
            SetupPhase::Write { .. } => input is Done,
            SetupPhase::Ended => false,
        }
    }

    /// How the setup goes on.
    pub open spec fn next(self, input: SetupInput) -> (SetupState, SetupStep) {
        match (self.phase, input) {
            (SetupPhase::GitCommit, SetupInput::Git(output)) => (
                SetupState {
                    git_commit: project::or_empty(project::git_answer(output)),
                    ..self
                }.at(SetupPhase::GitBranch),
                SetupStep::RunGit { args: seq!["symbolic-ref"@, "-q"@, "--short"@, "HEAD"@] },
            ),
            (SetupPhase::GitBranch, SetupInput::Git(output)) => (
                SetupState {
                    git_branch: project::or_empty(project::git_answer(output)),
                    ..self
                }.at(SetupPhase::CreateProjects),
                SetupStep::CreateDir { path: SetupState::projects_root() },
            ),
            (SetupPhase::CreateProjects, SetupInput::Done(ok)) => if ok {
                (
                    self.at(SetupPhase::CreateKb),
                    SetupStep::CreateDir { path: SetupState::kb_dir() },
                )
            } else {
                self.failed(SetupWork::Create, SetupState::projects_root())
            },
            (SetupPhase::CreateKb, SetupInput::Done(ok)) => if ok {
                self.try_index(1)
            } else {
                self.failed(SetupWork::Create, SetupState::kb_dir())
            },
            (SetupPhase::Exists { idx }, SetupInput::Exists(exists)) => if exists {
                self.try_index((idx + 1) as u32)
            } else {
                (
                    self.at(SetupPhase::CreateProject { idx }),
                    SetupStep::CreateDir { path: self.project_dir(idx) },
                )
            },
            (SetupPhase::CreateProject { idx }, SetupInput::Done(ok)) => if ok {
                (
                    self.at(SetupPhase::Write { idx }),
                    SetupStep::Write {
                        path: self.progress_file(idx),
                        contents: project::project_main(
                            self.template,
                            self.user_prompt,
                            self.git_commit,
                            self.git_branch,
                            text::occurs(self.user_prompt, project::POTTER_XMODEL_MARKER@),
                        ),
                    },
                )
            } else {
                self.failed(SetupWork::Create, self.project_dir(idx))
            },
            (SetupPhase::Write { idx }, SetupInput::Done(ok)) => if ok {
                (
                    self.at(SetupPhase::Ended),
                    SetupStep::Done {
                        progress_file_rel: self.progress_file(idx),
                        git_commit_start: self.git_commit,
                    },
                )
            } else {
                self.failed(SetupWork::Write, self.progress_file(idx))
            },
            _ => self.failed(SetupWork::Create, seq![]),
        }
    }
}

impl ProjectSetup {
    /// Set up a project for a prompt, on a day, with the template of its progress file.
    pub fn start(template: String, user_prompt: String, date: DayParts) -> (r: (
        ProjectSetup,
        SetupAction,
    ))
        ensures
            r.0@ == (SetupState {
                template: template@,
                user_prompt: user_prompt@,
                year: date.year@,
                month: date.month@,
                day: date.day@,
                git_commit: seq![],
                git_branch: seq![],
                phase: SetupPhase::GitCommit,
            }),
            r.1@ == (SetupStep::RunGit { args: seq!["rev-parse"@, "HEAD"@] }),
    {
        let setup = ProjectSetup {
            template,
            user_prompt,
            date,
            git_commit: String::new(),
            git_branch: String::new(),
            phase: SetupPhase::GitCommit,
        };
        assert(setup@.git_commit =~= seq![]);
        assert(setup@.git_branch =~= seq![]);
        (setup, SetupAction::RunGit { args: project::git_commit_args() })
    }

    fn project_dir(&self, idx: u32) -> (r: Vec<String>)
        ensures
            text::texts(r@) == self@.project_dir(idx),
    {
        let r = vec![
            ".codexpotter".to_owned(),
            "projects".to_owned(),
            self.date.year.clone(),
            self.date.month.clone(),
            self.date.day.clone(),
            text::decimal_of(idx as u64),
        ];
        assert(text::texts(r@) =~= self@.project_dir(idx));
        r
    }

    fn progress_file(&self, idx: u32) -> (r: Vec<String>)
        ensures
            text::texts(r@) == self@.progress_file(idx),
    {
        let mut r = self.project_dir(idx);
        r.push("MAIN.md".to_owned());
        assert(text::texts(r@) =~= self@.progress_file(idx));
        r
    }

    /// Look whether a number of the day is free.
    fn try_index(&mut self, idx: u32) -> (r: SetupAction)
        ensures
            (final(self)@, r@) == old(self)@.try_index(idx),
    {
        self.phase = SetupPhase::Exists { idx };
        SetupAction::Exists { path: self.project_dir(idx) }
    }

    fn failed(&mut self, work: SetupWork, path: Vec<String>) -> (r: SetupAction)
        ensures
            (final(self)@, r@) == old(self)@.failed(work, text::texts(path@)),
    {
        self.phase = SetupPhase::Ended;
        SetupAction::Failed { work, path }
    }

    fn projects_root() -> (r: Vec<String>)
        ensures
            text::texts(r@) == SetupState::projects_root(),
    {
        let r = vec![".codexpotter".to_owned(), "projects".to_owned()];
        assert(text::texts(r@) =~= SetupState::projects_root());
        r
    }

    fn kb_dir() -> (r: Vec<String>)
        ensures
            text::texts(r@) == SetupState::kb_dir(),
    {
        let r = vec![".codexpotter".to_owned(), "kb".to_owned()];
        assert(text::texts(r@) =~= SetupState::kb_dir());
        r
    }

    /// Go on with the result of what was asked for last.
    pub fn step(&mut self, input: SetupInput) -> (r: SetupAction)
        requires
            old(self)@.fits(input),
        ensures
            (final(self)@, r@) == old(self)@.next(input),
    {
        match (self.phase, input) {
            (SetupPhase::GitCommit, SetupInput::Git(output)) => {
                self.git_commit = project::resolve_git_commit(&output);
                self.phase = SetupPhase::GitBranch;
                SetupAction::RunGit { args: project::git_branch_args() }
            },
            (SetupPhase::GitBranch, SetupInput::Git(output)) => {
                self.git_branch = match project::resolve_git_branch(&output) {
                    Some(branch) => branch,
                    None => String::new(),
                };
                self.phase = SetupPhase::CreateProjects;
                SetupAction::CreateDir { path: ProjectSetup::projects_root() }
            },
            (SetupPhase::CreateProjects, SetupInput::Done(true)) => {
                self.phase = SetupPhase::CreateKb;
                SetupAction::CreateDir { path: ProjectSetup::kb_dir() }
            },
            (SetupPhase::CreateKb, SetupInput::Done(true)) => self.try_index(1),
            (SetupPhase::Exists { idx }, SetupInput::Exists(true)) => self.try_index(idx + 1),
            (SetupPhase::Exists { idx }, SetupInput::Exists(false)) => {
                self.phase = SetupPhase::CreateProject { idx };
                SetupAction::CreateDir { path: self.project_dir(idx) }
            },
            (SetupPhase::CreateProject { idx }, SetupInput::Done(true)) => {
                self.phase = SetupPhase::Write { idx };
                let potter_xmodel = project::requests_potter_xmodel(self.user_prompt.as_str());
                let contents = project::render_project_main(
                    self.template.as_str(),
                    self.user_prompt.as_str(),
                    self.git_commit.as_str(),
                    self.git_branch.as_str(),
                    potter_xmodel,
                );
                SetupAction::Write { path: self.progress_file(idx), contents }
            },
            (SetupPhase::Write { idx }, SetupInput::Done(true)) => {
                let progress_file_rel = self.progress_file(idx);
                let git_commit_start = self.git_commit.clone();
                self.phase = SetupPhase::Ended;
                SetupAction::Done { progress_file_rel, git_commit_start }
            },
            (SetupPhase::CreateProjects, SetupInput::Done(false)) => {
                self.failed(SetupWork::Create, ProjectSetup::projects_root())
            },
            (SetupPhase::CreateKb, SetupInput::Done(false)) => {
                self.failed(SetupWork::Create, ProjectSetup::kb_dir())
            },
            (SetupPhase::CreateProject { idx }, SetupInput::Done(false)) => {
                let path = self.project_dir(idx);
                self.failed(SetupWork::Create, path)
            },
            (SetupPhase::Write { idx }, SetupInput::Done(false)) => {
                let path = self.progress_file(idx);
                self.failed(SetupWork::Write, path)
            },
            _ => self.failed(SetupWork::Create, Vec::new()),
        }
    }
}

/// The number that a setup settles on, from `idx` on, where `taken` says which numbers of the day
/// are not free; looking at `n` numbers at most.
pub open spec fn settle(
    s: SetupState,
    idx: u32,
    taken: spec_fn(u32) -> bool,
    n: nat,
) -> SetupState
    decreases n,
{
    let (t, _) = s.at(SetupPhase::Exists { idx }).next(SetupInput::Exists(taken(idx)));
    if n == 0 || !taken(idx) {
        t
    } else {
        settle(t, (idx + 1) as u32, taken, (n - 1) as nat)
    }
}

/// A project gets the first number of its day that is free.
pub proof fn law_first_free_number(
    s: SetupState,
    idx: u32,
    free: u32,
    taken: spec_fn(u32) -> bool,
)
    requires
        idx <= free < i32::MAX,
        !taken(free),
        forall|k: u32| idx <= k < free ==> #[trigger] taken(k),
    ensures
        settle(s, idx, taken, (free - idx) as nat) == s.at(
            SetupPhase::CreateProject { idx: free },
        ),
    decreases free - idx,
{
    if idx < free {
        assert(taken(idx));
        let t = s.at(SetupPhase::Exists { idx }).next(SetupInput::Exists(true)).0;
        law_first_free_number(t, (idx + 1) as u32, free, taken);
    }
}

/// An action is read, mathematically, as what it is, with every path and text that it holds.
pub proof fn law_action_is_read_as_it_is(action: SetupAction)
    ensures
        match action {
            SetupAction::RunGit { args } => {
                &&& action@ is RunGit
                &&& action@->RunGit_args == text::texts(args@)
            },
            SetupAction::CreateDir { path } => {
                &&& action@ is CreateDir
                &&& action@->CreateDir_path == text::texts(path@)
            },
            SetupAction::Exists { path } => {
                &&& action@ is Exists
                &&& action@->Exists_path == text::texts(path@)
            },
            SetupAction::Write { path, contents } => {
                &&& action@ is Write
                &&& action@->Write_path == text::texts(path@)
                &&& action@->Write_contents == contents@
            },
            SetupAction::Done { progress_file_rel, git_commit_start } => {
                &&& action@ is Done
                &&& action@->Done_progress_file_rel == text::texts(progress_file_rel@)
                &&& action@->Done_git_commit_start == git_commit_start@
            },
            SetupAction::Failed { work, path } => {
                &&& action@ is Failed
                &&& action@->Failed_work == work
                &&& action@->Failed_path == text::texts(path@)
            },
        },
{
}

} // verus!
