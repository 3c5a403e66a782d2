//! A home directory that the upstream backend can use.
//!
//! The backend expects a `CODEX_HOME` with configuration, credentials, agents, skills and rules.
//! To leave the user's own Codex home alone, CodexPotter keeps a directory of symbolic links into
//! it. The file system is looked at and changed outside; what to do is decided here.

use vstd::prelude::*;

use crate::text;

verus! {

/// What an entry of the directory has to be.
#[derive(Clone, Copy, Debug, PartialEq, Eq, Structural)]
pub enum CodexCompatEntryKind {
    File,
    Directory,
}

/// An entry of the directory.
#[derive(Clone, Copy, Debug, PartialEq, Eq)]
pub struct CodexCompatEntry {
    pub name: &'static str,
    pub kind: CodexCompatEntryKind,
}

/// What is known of a file system entry.
#[derive(Clone, Copy, Debug, PartialEq, Eq, Structural)]
pub struct EntryFacts {
    pub is_file: bool,
    pub is_dir: bool,
    pub is_symlink: bool,
}

/// What came of looking at a path.
#[derive(Clone, Copy, Debug, PartialEq, Eq, Structural)]
pub enum Inspection {
    Found(EntryFacts),
    NotFound,
    Failed,
}

/// The name of an entry, and whether it is a directory.
pub open spec fn entry_names() -> Seq<(Seq<char>, CodexCompatEntryKind)> {
    seq![
        ("AGENTS.md"@, CodexCompatEntryKind::File),
        ("config.toml"@, CodexCompatEntryKind::File),
        ("auth.json"@, CodexCompatEntryKind::File),
        ("agents"@, CodexCompatEntryKind::Directory),
        ("skills"@, CodexCompatEntryKind::Directory),
        ("rules"@, CodexCompatEntryKind::Directory),
    ]
}

/// The entries of the directory, in the order in which they are made.
pub fn codex_compat_entries() -> (r: Vec<CodexCompatEntry>)
    ensures
        r@.len() == entry_names().len(),
        forall|i: int|
            0 <= i < r@.len() ==> (#[trigger] r@[i].name@, r@[i].kind) == entry_names()[i],
{
    vec![
        CodexCompatEntry { name: "AGENTS.md", kind: CodexCompatEntryKind::File },
        CodexCompatEntry { name: "config.toml", kind: CodexCompatEntryKind::File },
        CodexCompatEntry { name: "auth.json", kind: CodexCompatEntryKind::File },
        CodexCompatEntry { name: "agents", kind: CodexCompatEntryKind::Directory },
        CodexCompatEntry { name: "skills", kind: CodexCompatEntryKind::Directory },
        CodexCompatEntry { name: "rules", kind: CodexCompatEntryKind::Directory },
    ]
}

/// Where the directory stands below the user's home, component by component.
pub fn codex_compat_home_parts() -> (r: Vec<String>)
    ensures
        text::texts(r@) == seq![".codexpotter"@, "codex-compat"@],
{
    let r = vec![".codexpotter".to_owned(), "codex-compat".to_owned()];
    assert(text::texts(r@) =~= seq![".codexpotter"@, "codex-compat"@]);
    r
}

impl CodexCompatEntryKind {
    /// An entry is of this kind.
    pub open spec fn fits(self, facts: EntryFacts) -> bool {
        match self {
            CodexCompatEntryKind::File => facts.is_file,
            CodexCompatEntryKind::Directory => facts.is_dir,
        }
    }

    /// Whether an entry is of this kind.
    pub fn matches(self, facts: EntryFacts) -> (r: bool)
        ensures
            r == self.fits(facts),
    {
        match self {
            CodexCompatEntryKind::File => facts.is_file,
            CodexCompatEntryKind::Directory => facts.is_dir,
        }
    }
}

/// What a kind is called.
pub open spec fn kind_label(kind: CodexCompatEntryKind) -> Seq<char> {
    match kind {
        CodexCompatEntryKind::File => "file"@,
        CodexCompatEntryKind::Directory => "directory"@,
    }
}

/// What an entry is called.
pub open spec fn facts_label(facts: EntryFacts) -> Seq<char> {
    if facts.is_dir {
        "directory"@
    } else if facts.is_file {
        "file"@
    } else {
        "special entry"@
    }
}

/// What a kind is called.
pub fn expected_kind_label(kind: CodexCompatEntryKind) -> (r: &'static str)
    ensures
        r@ == kind_label(kind),
{
    match kind {
        CodexCompatEntryKind::File => "file",
        CodexCompatEntryKind::Directory => "directory",
    }
}

/// What an entry is called.
pub fn actual_kind_label(facts: EntryFacts) -> (r: &'static str)
    ensures
        r@ == facts_label(facts),
{
    if facts.is_dir {
        "directory"
    } else if facts.is_file {
        "file"
    } else {
        "special entry"
    }
}

/// Why the target of a link will not do, if so. A target that is not there yet will.
pub open spec fn target_fault(
    path: Seq<char>,
    kind: CodexCompatEntryKind,
    target: Inspection,
) -> Option<Seq<char>> {
    match target {
        Inspection::NotFound => None,
        Inspection::Failed => Some("read target metadata "@ + path),
        Inspection::Found(facts) => if kind.fits(facts) {
            None
        } else {
            Some(
                "expected "@ + path + " to be a "@ + kind_label(kind) + ", but found a "@
                    + facts_label(facts),
            )
        },
    }
}

/// Check that the target of a link is of the expected kind, or not there yet.
pub fn validate_target_kind(
    target_path: &str,
    expected_kind: CodexCompatEntryKind,
    target: Inspection,
) -> (r: Result<(), String>)
    ensures
        match r {
            Ok(_) => target_fault(target_path@, expected_kind, target) is None,
            Err(e) => target_fault(target_path@, expected_kind, target) == Some(e@),
        },
{
    match target {
        Inspection::NotFound => Ok(()),
        Inspection::Failed => {
            let mut out = "read target metadata ".to_owned();
            out.append(target_path);
            Err(out)
        },
        Inspection::Found(facts) => {
            if expected_kind.matches(facts) {
                return Ok(());
            }
            let mut out = "expected ".to_owned();
            out.append(target_path);
            out.append(" to be a ");
            out.append(expected_kind_label(expected_kind));
            out.append(", but found a ");
            out.append(actual_kind_label(facts));
            Err(out)
        },
    }
}

/// An existing entry has to be removed as a directory: a link as what it is meant to be, and
/// anything else as what it is.
pub open spec fn is_directory_entry(facts: EntryFacts, kind: CodexCompatEntryKind) -> bool {
    if facts.is_symlink {
        kind == CodexCompatEntryKind::Directory
    } else {
        facts.is_dir
    }
}

/// What kinds of links the platform has.
#[derive(Clone, Copy, Debug, PartialEq, Eq, Structural)]
pub enum LinkPlatform {
    /// One kind of link for everything.
    Unix,
    /// Links to files, and links to directories.
    Windows,
    /// No links.
    Other,
}

/// What is said of a link that could not be made, before its path.
pub open spec fn create_failure(
    platform: LinkPlatform,
    kind: CodexCompatEntryKind,
) -> Seq<char> {
    match (platform, kind) {
        (LinkPlatform::Windows, CodexCompatEntryKind::File) => "create file symlink "@,
        (LinkPlatform::Windows, CodexCompatEntryKind::Directory) => "create directory symlink "@,
        _ => "create symlink "@,
    }
}

/// Outside work that making a link asks for.
#[derive(Clone, Debug)]
pub enum LinkAction {
    /// Look at what the target path leads to.
    InspectTarget,
    /// Look at the entry in the link's place, without following it.
    InspectLink,
    /// Read where the link points, and compare with the target.
    ReadLink,
    /// Find out whether the target exists, and look at what the link path leads to.
    InspectResolved,
    /// Remove the entry in the link's place, as a directory or as a file.
    Remove { directory: bool },
    /// Make the link.
    Create,
    /// The link is in place.
    Done,
    /// The link cannot be made.
    Failed { message: String },
}

/// The result of outside work.
#[derive(Clone, Copy, Debug)]
pub enum LinkInput {
    /// Of `InspectTarget`.
    Target(Inspection),
    /// Of `InspectLink`.
    Link(Inspection),
    /// Of `ReadLink`: whether it points to the target.
    Points(Option<bool>),
    /// Of `InspectResolved`.
    Resolved { target_exists: bool, link_leads_to: Inspection },
    /// Of `Remove`.
    Removed(bool),
    /// Of `Create`.
    Created(bool),
}

/// What making a link is waiting for.
#[derive(Clone, Copy, Debug)]
pub enum LinkPhase {
    InspectTarget,
    InspectLink,
    ReadLink { found: EntryFacts },
    InspectResolved { found: EntryFacts },
    Remove { directory: bool },
    Create,
    Ended,
}

/// Making one link.
#[derive(Clone, Debug)]
pub struct LinkTask {
    link_path: String,
    target_path: String,
    kind: CodexCompatEntryKind,
    platform: LinkPlatform,
    phase: LinkPhase,
}

/// The state of making one link, mathematically.
pub struct LinkState {
    pub link_path: Seq<char>,
    pub target_path: Seq<char>,
    pub kind: CodexCompatEntryKind,
    pub platform: LinkPlatform,
    pub phase: LinkPhase,
}

/// The mathematical counterpart of [`LinkAction`].
pub enum LinkStep {
    InspectTarget,
    InspectLink,
    ReadLink,
    InspectResolved,
    Remove { directory: bool },
    Create,
    Done,
    Failed { message: Seq<char> },
}

impl View for LinkAction {
    type V = LinkStep;

    open spec fn view(&self) -> LinkStep {
        match *self {
            LinkAction::InspectTarget => LinkStep::InspectTarget,
            LinkAction::InspectLink => LinkStep::InspectLink,
            LinkAction::ReadLink => LinkStep::ReadLink,
            LinkAction::InspectResolved => LinkStep::InspectResolved,
            LinkAction::Remove { directory } => LinkStep::Remove { directory },
            LinkAction::Create => LinkStep::Create,
            LinkAction::Done => LinkStep::Done,
            LinkAction::Failed { message } => LinkStep::Failed { message: message@ },
        }
    }
}

impl View for LinkTask {
    type V = LinkState;

    closed spec fn view(&self) -> LinkState {
        LinkState {
            link_path: self.link_path@,
            target_path: self.target_path@,
            kind: self.kind,
            platform: self.platform,
            phase: self.phase,
        }
    }
}

impl LinkState {
    /// In another phase.
    pub open spec fn at(self, phase: LinkPhase) -> LinkState {
        LinkState { phase, ..self }
    }

    /// The link cannot be made.
    pub open spec fn failed(self, message: Seq<char>) -> (LinkState, LinkStep) {
        (self.at(LinkPhase::Ended), LinkStep::Failed { message })
    }

    /// Remove the entry that was found in the link's place.
    pub open spec fn remove(self, found: EntryFacts) -> (LinkState, LinkStep) {
        let directory = is_directory_entry(found, self.kind);
        (self.at(LinkPhase::Remove { directory }), LinkStep::Remove { directory })
    }

    /// Make the link, where the platform has links.
    pub open spec fn create(self) -> (LinkState, LinkStep) {
        if self.platform == LinkPlatform::Other {
            self.failed("symlinks are not supported on this platform"@)
        } else {
            (self.at(LinkPhase::Create), LinkStep::Create)
        }
    }

    /// The input is the result of what was asked for.
    pub open spec fn fits(self, input: LinkInput) -> bool {
        match self.phase {
            LinkPhase::InspectTarget => input is Target,
            LinkPhase::InspectLink => input is Link,
            LinkPhase::ReadLink { .. } => input is Points,
            LinkPhase::InspectResolved { .. } => input is Resolved,
            LinkPhase::Remove { .. } => input is Removed,
            LinkPhase::Create => input is Created,
            LinkPhase::Ended => false,
        }
    }

    /// How making the link goes on.
    pub open spec fn next(self, input: LinkInput) -> (LinkState, LinkStep) {
        match (self.phase, input) {
            (LinkPhase::InspectTarget, LinkInput::Target(target)) => match target_fault(
                self.target_path,
                self.kind,
                target,
            ) {
                Some(message) => self.failed(message),
                None => (self.at(LinkPhase::InspectLink), LinkStep::InspectLink),
            },
            (LinkPhase::InspectLink, LinkInput::Link(Inspection::NotFound)) => self.create(),
            (LinkPhase::InspectLink, LinkInput::Link(Inspection::Failed)) => self.failed(
                "inspect existing entry "@ + self.link_path,
            ),
            (LinkPhase::InspectLink, LinkInput::Link(Inspection::Found(found))) => {
                if found.is_symlink {
                    (self.at(LinkPhase::ReadLink { found }), LinkStep::ReadLink)
                } else {
                    self.remove(found)
                }
            },
            (LinkPhase::ReadLink { found }, LinkInput::Points(None)) => self.failed(
                "read symlink "@ + self.link_path,
            ),
            (LinkPhase::ReadLink { found }, LinkInput::Points(Some(true))) => (
                self.at(LinkPhase::InspectResolved { found }),
                LinkStep::InspectResolved,
            ),
            (LinkPhase::ReadLink { found }, LinkInput::Points(Some(false))) => self.remove(found),
            (
                LinkPhase::InspectResolved { found },
                LinkInput::Resolved { target_exists, link_leads_to },
            ) => if target_exists && (link_leads_to matches Inspection::Found(facts)
                && self.kind.fits(facts)) {
                (self.at(LinkPhase::Ended), LinkStep::Done)
            } else {
                self.remove(found)
            },
            (LinkPhase::Remove { directory }, LinkInput::Removed(ok)) => if ok {
                self.create()
            } else if directory {
                self.failed("remove directory "@ + self.link_path)
            } else {
                self.failed("remove entry "@ + self.link_path)
            },
            (LinkPhase::Create, LinkInput::Created(ok)) => if ok {
                (self.at(LinkPhase::Ended), LinkStep::Done)
            } else {
                self.failed(create_failure(self.platform, self.kind) + self.link_path)
            },
            _ => (self, LinkStep::Done),
        }
    }
}

impl LinkTask {
    /// Make sure that `link_path` is a link to `target_path`, on a platform. Nothing is to be done
    /// where the two are the same path.
    pub fn ensure_symlink(
        link_path: String,
        target_path: String,
        expected_kind: CodexCompatEntryKind,
        same_path: bool,
        platform: LinkPlatform,
    ) -> (r: (LinkTask, LinkAction))
        ensures
            r.0@ == (LinkState {
                link_path: link_path@,
                target_path: target_path@,
                kind: expected_kind,
                platform,
                phase: if same_path {
                    LinkPhase::Ended
                } else {
                    LinkPhase::InspectTarget
                },
            }),
            r.1@ == if same_path {
                LinkStep::Done
            } else {
                LinkStep::InspectTarget
            },
    {
        let (phase, action) = if same_path {
            (LinkPhase::Ended, LinkAction::Done)
        } else {
            (LinkPhase::InspectTarget, LinkAction::InspectTarget)
        };
        (LinkTask { link_path, target_path, kind: expected_kind, platform, phase }, action)
    }

    fn failed(&mut self, message: String) -> (r: LinkAction)
        ensures
            (final(self)@, r@) == old(self)@.failed(message@),
    {
        self.phase = LinkPhase::Ended;
        LinkAction::Failed { message }
    }

    /// A failure that names the link.
    fn link_failed(&mut self, what: &str) -> (r: LinkAction)
        ensures
            (final(self)@, r@) == old(self)@.failed(what@ + old(self)@.link_path),
    {
        let mut message = what.to_owned();
        message.append(self.link_path.as_str());
        self.failed(message)
    }

    /// Make the link, where the platform has links.
    fn create(&mut self) -> (r: LinkAction)
        ensures
            (final(self)@, r@) == old(self)@.create(),
    {
        match self.platform {
            LinkPlatform::Other => self.failed(
                "symlinks are not supported on this platform".to_owned(),
            ),
            _ => {
                self.phase = LinkPhase::Create;
                LinkAction::Create
            },
        }
    }

    /// Remove what stands in the link's place.
    fn remove_existing_entry(&mut self, found: EntryFacts) -> (r: LinkAction)
        ensures
            (final(self)@, r@) == old(self)@.remove(found),
    {
        let directory = if found.is_symlink {
            match self.kind {
                CodexCompatEntryKind::Directory => true,
                CodexCompatEntryKind::File => false,
            }
        } else {
            found.is_dir
        };
        self.phase = LinkPhase::Remove { directory };
        LinkAction::Remove { directory }
    }

    /// Go on with the result of what was asked for last.
    pub fn step(&mut self, input: LinkInput) -> (r: LinkAction)
        requires
            old(self)@.fits(input),
        ensures
            (final(self)@, r@) == old(self)@.next(input),
    {
        match (self.phase, input) {
            (LinkPhase::InspectTarget, LinkInput::Target(target)) => {
                match validate_target_kind(self.target_path.as_str(), self.kind, target) {
                    Ok(_) => {
                        self.phase = LinkPhase::InspectLink;
                        LinkAction::InspectLink
                    },
                    Err(message) => self.failed(message),
                }
            },
            (LinkPhase::InspectLink, LinkInput::Link(Inspection::NotFound)) => self.create(),
            (LinkPhase::InspectLink, LinkInput::Link(Inspection::Failed)) => self.link_failed(
                "inspect existing entry ",
            ),
            (LinkPhase::InspectLink, LinkInput::Link(Inspection::Found(found))) => {
                if found.is_symlink {
                    self.phase = LinkPhase::ReadLink { found };
                    LinkAction::ReadLink
                } else {
                    self.remove_existing_entry(found)
                }
            },
            (LinkPhase::ReadLink { .. }, LinkInput::Points(None)) => self.link_failed(
                "read symlink ",
            ),
            (LinkPhase::ReadLink { found }, LinkInput::Points(Some(points_to_target))) => {
                if points_to_target {
                    self.phase = LinkPhase::InspectResolved { found };
                    LinkAction::InspectResolved
                } else {
                    self.remove_existing_entry(found)
                }
            },
            (
                LinkPhase::InspectResolved { found },
                LinkInput::Resolved { target_exists, link_leads_to },
            ) => {
                let leads_there = match link_leads_to {
                    Inspection::Found(facts) => self.kind.matches(facts),
                    _ => false,
                };
                if target_exists && leads_there {
                    self.phase = LinkPhase::Ended;
                    LinkAction::Done
                } else {
                    self.remove_existing_entry(found)
                }
            },
            (LinkPhase::Remove { directory }, LinkInput::Removed(ok)) => if ok {
                self.create()
            } else if directory {
                self.link_failed("remove directory ")
            } else {
                self.link_failed("remove entry ")
            },
            (LinkPhase::Create, LinkInput::Created(ok)) => if ok {
                self.phase = LinkPhase::Ended;
                LinkAction::Done
            } else {
                let what = match (self.platform, self.kind) {
                    (LinkPlatform::Windows, CodexCompatEntryKind::File) => "create file symlink ",
                    (LinkPlatform::Windows, CodexCompatEntryKind::Directory) =>
                        "create directory symlink ",
                    _ => "create symlink ",
                };
                self.link_failed(what)
            },
            _ => LinkAction::Done,
        }
    }
}

/// A target of the wrong kind is never linked, and nothing is removed on its account: the first
/// thing that is looked at ends the task.
pub proof fn law_wrong_target_changes_nothing(s: LinkState, facts: EntryFacts)
    requires
        s.phase is InspectTarget,
        !s.kind.fits(facts),
    ensures
        s.next(LinkInput::Target(Inspection::Found(facts))).1 is Failed,
        s.next(LinkInput::Target(Inspection::Found(facts))).0.phase is Ended,
{
}

/// A link that already points to an existing target of the right kind is left alone: the task
/// ends without removing or making anything.
pub proof fn law_second_run_changes_nothing(s: LinkState, target: EntryFacts, link: EntryFacts)
    requires
        s.phase is InspectTarget,
        s.kind.fits(target),
        link.is_symlink,
    ensures
        ({
            let (s1, a1) = s.next(LinkInput::Target(Inspection::Found(target)));
            let (s2, a2) = s1.next(LinkInput::Link(Inspection::Found(link)));
            let (s3, a3) = s2.next(LinkInput::Points(Some(true)));
            let (s4, a4) = s3.next(
                LinkInput::Resolved {
                    target_exists: true,
                    link_leads_to: Inspection::Found(target),
                },
            );
            &&& a1 == LinkStep::InspectLink
            &&& a2 == LinkStep::ReadLink
            &&& a3 == LinkStep::InspectResolved
            &&& a4 == LinkStep::Done
            &&& s4.phase is Ended
        }),
{
}

/// A link that points elsewhere is repaired: it is removed, and made anew where the platform has
/// links.
pub proof fn law_stale_link_is_repaired(s: LinkState, target: Inspection, link: EntryFacts)
    requires
        s.phase is InspectTarget,
        target_fault(s.target_path, s.kind, target) is None,
        link.is_symlink,
        s.platform != LinkPlatform::Other,
    ensures
        ({
            let (s1, a1) = s.next(LinkInput::Target(target));
            let (s2, a2) = s1.next(LinkInput::Link(Inspection::Found(link)));
            let (s3, a3) = s2.next(LinkInput::Points(Some(false)));
            let (s4, a4) = s3.next(LinkInput::Removed(true));
            let (s5, a5) = s4.next(LinkInput::Created(true));
            &&& a3 == (LinkStep::Remove {
                directory: s.kind == CodexCompatEntryKind::Directory,
            })
            &&& a4 == LinkStep::Create
            &&& a5 == LinkStep::Done
        }),
{
}

/// Nothing is removed unless something was found in the link's place, and a link is made only
/// where nothing was found or what was found has been removed.
pub proof fn law_links_replace_what_was_found(s: LinkState, input: LinkInput)
    requires
        s.fits(input),
    ensures
        s.next(input).1 is Remove ==> (s.phase is ReadLink || s.phase is InspectResolved || (input
            matches LinkInput::Link(Inspection::Found(_)))),
        s.next(input).1 is Create ==> input == LinkInput::Link(Inspection::NotFound) || input
            == LinkInput::Removed(true),
{
}

/// What stands in the link's place.
pub enum WorldLink {
    Absent,
    Symlink { to_target: bool },
    Entry { facts: EntryFacts },
}

/// The part of a file system that a task looks at and changes, where nothing fails.
pub struct LinkWorld {
    pub target: Option<EntryFacts>,
    pub link: WorldLink,
}

impl LinkWorld {
    /// What the target path leads to.
    pub open spec fn inspect_target(self) -> Inspection {
        match self.target {
            Some(facts) => Inspection::Found(facts),
            None => Inspection::NotFound,
        }
    }

    /// The link is in place, and its target exists.
    pub open spec fn linked(self) -> bool {
        self.link == (WorldLink::Symlink { to_target: true }) && self.target is Some
    }

    /// Do what a task asks for.
    pub open spec fn perform(self, step: LinkStep) -> (LinkWorld, LinkInput) {
        match step {
            LinkStep::InspectTarget => (self, LinkInput::Target(self.inspect_target())),
            LinkStep::InspectLink => (
                self,
                LinkInput::Link(
                    match self.link {
                        WorldLink::Absent => Inspection::NotFound,
                        WorldLink::Symlink { .. } => Inspection::Found(
                            EntryFacts { is_file: false, is_dir: false, is_symlink: true },
                        ),
                        WorldLink::Entry { facts } => Inspection::Found(
                            EntryFacts { is_symlink: false, ..facts },
                        ),
                    },
                ),
            ),
            LinkStep::ReadLink => (
                self,
                LinkInput::Points(Some(self.link == (WorldLink::Symlink { to_target: true }))),
            ),
            LinkStep::InspectResolved => (
                self,
                LinkInput::Resolved {
                    target_exists: self.target is Some,
                    link_leads_to: self.inspect_target(),
                },
            ),
            LinkStep::Remove { .. } => (
                LinkWorld { link: WorldLink::Absent, ..self },
                LinkInput::Removed(true),
            ),
            LinkStep::Create => (
                LinkWorld { link: WorldLink::Symlink { to_target: true }, ..self },
                LinkInput::Created(true),
            ),
            _ => (self, LinkInput::Created(true)),
        }
    }

    /// The world and the task after `n` steps.
    pub open spec fn run(self, s: LinkState, step: LinkStep, n: nat) -> (
        LinkWorld,
        LinkState,
        LinkStep,
    )
        decreases n,
    {
        if n == 0 || step is Done || step is Failed {
            (self, s, step)
        } else {
            let (world, input) = self.perform(step);
            let (t, next) = s.next(input);
            world.run(t, next, (n - 1) as nat)
        }
    }
}

/// One task in a world where nothing fails.
pub proof fn lemma_link_is_made(world: LinkWorld, s: LinkState)
    requires
        s.platform != LinkPlatform::Other || world.linked(),
        s.phase is InspectTarget,
        target_fault(s.target_path, s.kind, world.inspect_target()) is None,
    ensures
        ({
            let (after, _, last) = world.run(s, LinkStep::InspectTarget, 7);
            &&& last == LinkStep::Done
            &&& after == (LinkWorld {
                target: world.target,
                link: WorldLink::Symlink { to_target: true },
            })
        }),
{
    let s1 = s.at(LinkPhase::InspectLink);
    assert(world.run(s, LinkStep::InspectTarget, 7) == world.run(s1, LinkStep::InspectLink, 6));
    match world.link {
        WorldLink::Absent => {
            lemma_create(world, s1.at(LinkPhase::Create), 5);
            assert(world.run(s1, LinkStep::InspectLink, 6) == world.run(
                s1.at(LinkPhase::Create),
                LinkStep::Create,
                5,
            ));
        },
        WorldLink::Entry { facts } => {
            let found = EntryFacts { is_symlink: false, ..facts };
            lemma_remove(world, s1, found, 5);
            assert(world.run(s1, LinkStep::InspectLink, 6) == world.run(
                s1.remove(found).0,
                s1.remove(found).1,
                5,
            ));
        },
        WorldLink::Symlink { to_target } => {
            let found = EntryFacts { is_file: false, is_dir: false, is_symlink: true };
            let s2 = s1.at(LinkPhase::ReadLink { found });
            assert(world.run(s1, LinkStep::InspectLink, 6) == world.run(
                s2,
                LinkStep::ReadLink,
                5,
            ));
            if to_target {
                let s3 = s2.at(LinkPhase::InspectResolved { found });
                assert(world.run(s2, LinkStep::ReadLink, 5) == world.run(
                    s3,
                    LinkStep::InspectResolved,
                    4,
                ));
                if world.target is Some {
                    assert(world.run(s3, LinkStep::InspectResolved, 4) == world.run(
                        s3.at(LinkPhase::Ended),
                        LinkStep::Done,
                        3,
                    ));
                } else {
                    lemma_remove(world, s3, found, 3);
                    assert(world.run(s3, LinkStep::InspectResolved, 4) == world.run(
                        s3.remove(found).0,
                        s3.remove(found).1,
                        3,
                    ));
                }
            } else {
                lemma_remove(world, s2, found, 4);
                assert(world.run(s2, LinkStep::ReadLink, 5) == world.run(
                    s2.remove(found).0,
                    s2.remove(found).1,
                    4,
                ));
            }
        },
    }
}

proof fn lemma_create(world: LinkWorld, s: LinkState, n: nat)
    requires
        s.phase is Create,
        n >= 1,
    ensures
        world.run(s, LinkStep::Create, n) == (
            LinkWorld { link: WorldLink::Symlink { to_target: true }, ..world },
            s.at(LinkPhase::Ended),
            LinkStep::Done,
        ),
{
    reveal_with_fuel(LinkWorld::run, 2);
}

proof fn lemma_remove(world: LinkWorld, s: LinkState, found: EntryFacts, n: nat)
    requires
        n >= 2,
        s.platform != LinkPlatform::Other,
    ensures
        ({
            let (after, _, last) = world.run(s.remove(found).0, s.remove(found).1, n);
            &&& last == LinkStep::Done
            &&& after == (LinkWorld { link: WorldLink::Symlink { to_target: true }, ..world })
        }),
{
    let (t, step) = s.remove(found);
    let gone = LinkWorld { link: WorldLink::Absent, ..world };
    lemma_create(gone, t.at(LinkPhase::Create), (n - 1) as nat);
    assert(world.run(t, step, n) == gone.run(
        t.at(LinkPhase::Create),
        LinkStep::Create,
        (n - 1) as nat,
    ));
}

/// Whatever stands in the link's place, a task whose target will do ends with the link pointing
/// to the target, and leaves the target alone. A second task ends with the same world. On a
/// platform without links that is so only where the link is in place already.
pub proof fn law_link_ends_up_in_place(world: LinkWorld, s: LinkState)
    requires
        s.platform != LinkPlatform::Other || world.linked(),
        s.phase is InspectTarget,
        target_fault(s.target_path, s.kind, world.inspect_target()) is None,
    ensures
        ({
            let (after, _, last) = world.run(s, LinkStep::InspectTarget, 7);
            let (again, _, last_again) = after.run(s, LinkStep::InspectTarget, 7);
            &&& last == LinkStep::Done
            &&& after == (LinkWorld {
                target: world.target,
                link: WorldLink::Symlink { to_target: true },
            })
            &&& last_again == LinkStep::Done
            &&& again == after
        }),
{
    lemma_link_is_made(world, s);
    let (after, _, _) = world.run(s, LinkStep::InspectTarget, 7);
    lemma_link_is_made(after, s);
}

/// Where the user's own Codex home is.
#[derive(Clone, Copy, Debug, PartialEq, Eq, Structural)]
pub enum CodexHomeChoice {
    /// `.codex` below the user's home.
    Default,
    /// The directory that `CODEX_HOME` names.
    FromEnv,
}

/// The name of the default Codex home, below the user's home.
pub const DEFAULT_CODEX_HOME: &'static str = ".codex";

/// What `CODEX_HOME` turned out to lead to.
#[derive(Clone, Debug)]
pub enum CodexHomeInspection {
    Found { is_dir: bool },
    NotFound,
    Failed { error: String },
}

/// Decide where the user's own Codex home is: an empty `CODEX_HOME` counts as none.
pub fn resolve_real_codex_home_from_env(codex_home_env: Option<&str>) -> (r: CodexHomeChoice)
    ensures
        r == (match codex_home_env {
            Some(val) => if val@.len() > 0 {
                CodexHomeChoice::FromEnv
            } else {
                CodexHomeChoice::Default
            },
            None => CodexHomeChoice::Default,
        }),
{
    match codex_home_env {
        Some(val) => {
            let chars = text::chars_of(val);
            if chars.len() > 0 {
                CodexHomeChoice::FromEnv
            } else {
                CodexHomeChoice::Default
            }
        },
        None => CodexHomeChoice::Default,
    }
}

/// Why `CODEX_HOME` will not do, if so.
pub open spec fn codex_home_fault(val: Seq<char>, found: CodexHomeInspection) -> Option<Seq<char>> {
    match found {
        CodexHomeInspection::NotFound => Some(
            "CODEX_HOME points to "@ + text::debug_text(val) + ", but that path does not exist"@,
        ),
        CodexHomeInspection::Failed { error } => Some(
            "failed to read CODEX_HOME "@ + text::debug_text(val) + ": "@ + error@,
        ),
        CodexHomeInspection::Found { is_dir } => if is_dir {
            None
        } else {
            Some(
                "CODEX_HOME points to "@ + text::debug_text(val)
                    + ", but that path is not a directory"@,
            )
        },
    }
}

/// Check that `CODEX_HOME` leads to a directory.
pub fn check_codex_home(val: &str, found: &CodexHomeInspection) -> (r: Result<(), String>)
    ensures
        match r {
            Ok(_) => codex_home_fault(val@, *found) is None,
            Err(e) => codex_home_fault(val@, *found) == Some(e@),
        },
{
    let shown = text::debug_of(val);
    match found {
        CodexHomeInspection::Found { is_dir: true } => Ok(()),
        CodexHomeInspection::Found { is_dir: false } => {
            let mut out = "CODEX_HOME points to ".to_owned();
            out.append(shown.as_str());
            out.append(", but that path is not a directory");
            Err(out)
        },
        CodexHomeInspection::NotFound => {
            let mut out = "CODEX_HOME points to ".to_owned();
            out.append(shown.as_str());
            out.append(", but that path does not exist");
            Err(out)
        },
        CodexHomeInspection::Failed { error } => {
            let mut out = "failed to read CODEX_HOME ".to_owned();
            out.append(shown.as_str());
            out.append(": ");
            out.append(error.as_str());
            Err(out)
        },
    }
}

/// The failure to make the path of `CODEX_HOME` canonical.
pub fn canonicalize_failure(val: &str, error: &str) -> (r: String)
    ensures
        r@ == "failed to canonicalize CODEX_HOME "@ + text::debug_text(val@) + ": "@ + error@,
{
    let mut out = "failed to canonicalize CODEX_HOME ".to_owned();
    let shown = text::debug_of(val);
    out.append(shown.as_str());
    out.append(": ");
    out.append(error);
    out
}

/// The entries of the directory: three files and three directories, under their names.
pub proof fn law_entries()
    ensures
        entry_names().len() == 6,
        entry_names()[0] == ("AGENTS.md"@, CodexCompatEntryKind::File),
        entry_names()[1] == ("config.toml"@, CodexCompatEntryKind::File),
        entry_names()[2] == ("auth.json"@, CodexCompatEntryKind::File),
        entry_names()[3] == ("agents"@, CodexCompatEntryKind::Directory),
        entry_names()[4] == ("skills"@, CodexCompatEntryKind::Directory),
        entry_names()[5] == ("rules"@, CodexCompatEntryKind::Directory),
{
}

/// A target will do if it is not there, or is of the kind that is expected; if it cannot be looked
/// at, or is of another kind, the fault names its path, and both kinds.
pub proof fn law_which_target_will_do(path: Seq<char>, facts: EntryFacts)
    ensures
        target_fault(path, CodexCompatEntryKind::File, Inspection::NotFound) is None,
        target_fault(path, CodexCompatEntryKind::Directory, Inspection::NotFound) is None,
        target_fault(path, CodexCompatEntryKind::File, Inspection::Failed) == Some(
            "read target metadata "@ + path,
        ),
        target_fault(path, CodexCompatEntryKind::Directory, Inspection::Failed) == Some(
            "read target metadata "@ + path,
        ),
        target_fault(path, CodexCompatEntryKind::File, Inspection::Found(facts)) is None
            <==> facts.is_file,
        target_fault(path, CodexCompatEntryKind::Directory, Inspection::Found(facts)) is None
            <==> facts.is_dir,
        !facts.is_file ==> target_fault(path, CodexCompatEntryKind::File, Inspection::Found(facts))
            == Some(
            "expected "@ + path + " to be a "@ + "file"@ + ", but found a "@ + (if facts.is_dir {
                "directory"@
            } else {
                "special entry"@
            }),
        ),
        !facts.is_dir ==> target_fault(
            path,
            CodexCompatEntryKind::Directory,
            Inspection::Found(facts),
        ) == Some(
            "expected "@ + path + " to be a "@ + "directory"@ + ", but found a "@ + (
            if facts.is_file {
                "file"@
            } else {
                "special entry"@
            }),
        ),
{
}

/// Work on a link that fails ends it, and what is said of it names the link.
pub proof fn law_failures_name_the_link(s: LinkState, found: EntryFacts, directory: bool)
    ensures
        s.phase is InspectLink ==> s.next(LinkInput::Link(Inspection::Failed)).1 == (
        LinkStep::Failed { message: "inspect existing entry "@ + s.link_path }),
        s.phase is ReadLink ==> s.next(LinkInput::Points(None)).1 == (LinkStep::Failed {
            message: "read symlink "@ + s.link_path,
        }),
        s.phase == (LinkPhase::Remove { directory: true }) ==> s.next(LinkInput::Removed(false)).1
            == (LinkStep::Failed { message: "remove directory "@ + s.link_path }),
        s.phase == (LinkPhase::Remove { directory: false }) ==> s.next(LinkInput::Removed(false)).1
            == (LinkStep::Failed { message: "remove entry "@ + s.link_path }),
        s.phase is Create && s.platform is Windows && s.kind is File ==> s.next(
            LinkInput::Created(false),
        ).1 == (LinkStep::Failed { message: "create file symlink "@ + s.link_path }),
        s.phase is Create && s.platform is Windows && s.kind is Directory ==> s.next(
            LinkInput::Created(false),
        ).1 == (LinkStep::Failed { message: "create directory symlink "@ + s.link_path }),
        s.phase is Create && !(s.platform is Windows) ==> s.next(LinkInput::Created(false)).1 == (
        LinkStep::Failed { message: "create symlink "@ + s.link_path }),
        s.phase is Remove && s.platform is Other ==> s.next(LinkInput::Removed(true)).1 == (
        LinkStep::Failed { message: "symlinks are not supported on this platform"@ }),
        s.phase is InspectLink && s.platform is Other ==> s.next(
            LinkInput::Link(Inspection::NotFound),
        ).1 == (LinkStep::Failed { message: "symlinks are not supported on this platform"@ }),
{
}

/// The course of a link from one state: an entry that is no link is removed as what it is, and a
/// link that leads elsewhere, or to nothing, or to the wrong kind, as what it is meant to be; what
/// is removed or missing is made anew.
pub proof fn law_course_of_a_link(
    s: LinkState,
    found: EntryFacts,
    target_exists: bool,
    leads_to: Inspection,
)
    requires
        !(s.platform is Other),
    ensures
        s.phase is InspectLink ==> s.next(LinkInput::Link(Inspection::NotFound)).1 is Create,
        s.phase is InspectLink && found.is_symlink ==> s.next(
            LinkInput::Link(Inspection::Found(found)),
        ).1 is ReadLink,
        s.phase is InspectLink && !found.is_symlink ==> s.next(
            LinkInput::Link(Inspection::Found(found)),
        ).1 == (LinkStep::Remove { directory: found.is_dir }),
        s.phase == (LinkPhase::ReadLink { found }) && found.is_symlink ==> {
            &&& s.next(LinkInput::Points(Some(true))).1 is InspectResolved
            &&& s.next(LinkInput::Points(Some(false))).1 == (LinkStep::Remove {
                directory: s.kind is Directory,
            })
        },
        s.phase == (LinkPhase::InspectResolved { found }) && found.is_symlink ==> s.next(
            LinkInput::Resolved { target_exists, link_leads_to: leads_to },
        ).1 == if target_exists && match leads_to {
            Inspection::Found(facts) => if s.kind is File {
                facts.is_file
            } else {
                facts.is_dir
            },
            _ => false,
        } {
            LinkStep::Done
        } else {
            LinkStep::Remove { directory: s.kind is Directory }
        },
        s.phase is Remove ==> s.next(LinkInput::Removed(true)).1 is Create,
        s.phase is Create ==> s.next(LinkInput::Created(true)).1 is Done,
{
}

/// A task keeps to its link, its target, its kind and its platform.
pub proof fn law_task_keeps_to_its_link(s: LinkState, input: LinkInput)
    ensures
        s.next(input).0.link_path == s.link_path,
        s.next(input).0.target_path == s.target_path,
        s.next(input).0.kind == s.kind,
        s.next(input).0.platform == s.platform,
{
}

/// `CODEX_HOME` will do if it is a directory, and only then; what is said of it otherwise names it.
pub proof fn law_which_codex_home_will_do(val: Seq<char>, error: String)
    ensures
        codex_home_fault(val, CodexHomeInspection::Found { is_dir: true }) is None,
        codex_home_fault(val, CodexHomeInspection::Found { is_dir: false }) == Some(
            "CODEX_HOME points to "@ + text::debug_text(val)
                + ", but that path is not a directory"@,
        ),
        codex_home_fault(val, CodexHomeInspection::NotFound) == Some(
            "CODEX_HOME points to "@ + text::debug_text(val) + ", but that path does not exist"@,
        ),
        codex_home_fault(val, CodexHomeInspection::Failed { error }) == Some(
            "failed to read CODEX_HOME "@ + text::debug_text(val) + ": "@ + error@,
        ),
{
}

/// An action is read, mathematically, as what it is, with its words where it failed.
pub proof fn law_action_is_read_as_it_is(action: LinkAction)
    ensures
        match action {
            LinkAction::InspectTarget => action@ is InspectTarget,
            LinkAction::InspectLink => action@ is InspectLink,
            LinkAction::ReadLink => action@ is ReadLink,
            LinkAction::InspectResolved => action@ is InspectResolved,
            LinkAction::Remove { directory } => {
                &&& action@ is Remove
                &&& action@->Remove_directory == directory
            },
            LinkAction::Create => action@ is Create,
            LinkAction::Done => action@ is Done,
            LinkAction::Failed { message } => {
                &&& action@ is Failed
                &&& action@->Failed_message == message@
            },
        },
{
}

} // verus!
