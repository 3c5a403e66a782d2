//! The home directory of the backend: a directory with a link to every entry of the user's own
//! Codex home that the backend shares.

use vstd::prelude::*;

use crate::codex_compat;
use crate::codex_compat::CodexCompatEntry;
use crate::codex_compat::LinkAction;
use crate::codex_compat::LinkInput;
use crate::codex_compat::LinkPhase;
use crate::codex_compat::LinkPlatform;
use crate::codex_compat::LinkState;
use crate::codex_compat::LinkStep;
use crate::codex_compat::LinkTask;
use crate::codex_compat::LinkWorld;
use crate::codex_compat::WorldLink;

verus! {

/// Outside work that setting the home up asks for.
#[derive(Clone, Debug)]
pub enum HomeAction {
    /// Create the home directory, and those above it.
    CreateDir,
    /// Find out where the link of an entry and its target are.
    Locate { entry: CodexCompatEntry },
    /// Work on the link of the entry that was located last.
    Link { action: LinkAction },
    /// The home is set up.
    Done,
    /// The home cannot be set up.
    Failed { message: String },
}

/// The result of outside work.
#[derive(Clone, Debug)]
pub enum HomeInput {
    /// Of `CreateDir`: whether it worked.
    Created(bool),
    /// Of `Locate`: the two paths, and whether they are the same.
    Located { link_path: String, target_path: String, same_path: bool },
    /// Of `Link`.
    Link(LinkInput),
}

/// What setting the home up is waiting for.
#[derive(Clone, Debug)]
pub enum HomePhase {
    CreateDir,
    Locate { index: usize },
    Link { index: usize, task: LinkTask },
    Ended,
}

/// Setting the home up.
#[derive(Clone, Debug)]
pub struct HomeTask {
    home: String,
    platform: LinkPlatform,
    phase: HomePhase,
}

/// The mathematical counterpart of [`HomeAction`]; an entry is given by its place in the table.
pub enum HomeStep {
    CreateDir,
    Locate { index: nat },
    Link { step: LinkStep },
    Done,
    Failed { message: Seq<char> },
}

/// The mathematical counterpart of [`HomeInput`].
pub enum HomeEvent {
    Created(bool),
    Located { link_path: Seq<char>, target_path: Seq<char>, same_path: bool },
    Link(LinkInput),
}

/// The mathematical counterpart of [`HomePhase`].
pub enum HomeStage {
    CreateDir,
    Locate { index: nat },
    Link { index: nat, link: LinkState },
    Ended,
}

/// The state of setting the home up, mathematically.
pub struct HomeState {
    pub home: Seq<char>,
    pub platform: LinkPlatform,
    pub stage: HomeStage,
}

impl View for HomeInput {
    type V = HomeEvent;

    open spec fn view(&self) -> HomeEvent {
        match *self {
            HomeInput::Created(ok) => HomeEvent::Created(ok),
            HomeInput::Located { link_path, target_path, same_path } => HomeEvent::Located {
                link_path: link_path@,
                target_path: target_path@,
                same_path,
            },
            HomeInput::Link(input) => HomeEvent::Link(input),
        }
    }
}

impl View for HomePhase {
    type V = HomeStage;

    open spec fn view(&self) -> HomeStage {
        match *self {
            HomePhase::CreateDir => HomeStage::CreateDir,
            HomePhase::Locate { index } => HomeStage::Locate { index: index as nat },
            HomePhase::Link { index, task } => HomeStage::Link { index: index as nat, link: task@ },
            HomePhase::Ended => HomeStage::Ended,
        }
    }
}

impl View for HomeTask {
    type V = HomeState;

    closed spec fn view(&self) -> HomeState {
        HomeState { home: self.home@, platform: self.platform, stage: self.phase@ }
    }
}

/// An action is what a step asks for.
pub open spec fn asks_for(action: HomeAction, step: HomeStep) -> bool {
    match (action, step) {
        (HomeAction::CreateDir, HomeStep::CreateDir) => true,
        (HomeAction::Locate { entry }, HomeStep::Locate { index }) => index
            < codex_compat::entry_names().len() && (entry.name@, entry.kind)
            == codex_compat::entry_names()[index as int],
        (HomeAction::Link { action }, HomeStep::Link { step }) => action@ == step,
        (HomeAction::Done, HomeStep::Done) => true,
        (HomeAction::Failed { message }, HomeStep::Failed { message: m }) => message@ == m,
        _ => false,
    }
}

impl HomeState {
    /// In another stage.
    pub open spec fn at(self, stage: HomeStage) -> HomeState {
        HomeState { stage, ..self }
    }

    /// The home cannot be set up.
    pub open spec fn failed(self, message: Seq<char>) -> (HomeState, HomeStep) {
        (self.at(HomeStage::Ended), HomeStep::Failed { message })
    }

    /// Go on with the entry at a place of the table, where there is one.
    pub open spec fn locate(self, index: nat) -> (HomeState, HomeStep) {
        if index < codex_compat::entry_names().len() {
            (self.at(HomeStage::Locate { index }), HomeStep::Locate { index })
        } else {
            (self.at(HomeStage::Ended), HomeStep::Done)
        }
    }

    /// Go on after a step of the link of an entry.
    pub open spec fn linked(self, index: nat, link: LinkState, step: LinkStep) -> (
        HomeState,
        HomeStep,
    ) {
        match step {
            LinkStep::Done => self.locate(index + 1),
            LinkStep::Failed { message } => self.failed(message),
            _ => (self.at(HomeStage::Link { index, link }), HomeStep::Link { step }),
        }
    }

    /// The input is the result of what was asked for.
    pub open spec fn fits(self, input: HomeEvent) -> bool {
        match self.stage {
            HomeStage::CreateDir => input is Created,
            HomeStage::Locate { .. } => input is Located,
            HomeStage::Link { link, .. } => input matches HomeEvent::Link(i) && link.fits(i),
            HomeStage::Ended => false,
        }
    }

    /// How setting the home up goes on.
    pub open spec fn next(self, input: HomeEvent) -> (HomeState, HomeStep) {
        match (self.stage, input) {
            (HomeStage::CreateDir, HomeEvent::Created(ok)) => if ok {
                self.locate(0)
            } else {
                self.failed("create directory "@ + self.home)
            },
            (
                HomeStage::Locate { index },
                HomeEvent::Located { link_path, target_path, same_path },
            ) => {
                let link = LinkState {
                    link_path,
                    target_path,
                    kind: codex_compat::entry_names()[index as int].1,
                    platform: self.platform,
                    phase: if same_path {
                        LinkPhase::Ended
                    } else {
                        LinkPhase::InspectTarget
                    },
                };
                self.linked(
                    index,
                    link,
                    if same_path {
                        LinkStep::Done
                    } else {
                        LinkStep::InspectTarget
                    },
                )
            },
            (HomeStage::Link { index, link }, HomeEvent::Link(input)) => self.linked(
                index,
                link.next(input).0,
                link.next(input).1,
            ),
            _ => (self, HomeStep::Done),
        }
    }
}

impl HomeTask {
    /// Set up the home that is shown as `home`, on a platform.
    pub fn ensure_codex_compat_home(home: String, platform: LinkPlatform) -> (r: (
        HomeTask,
        HomeAction,
    ))
        ensures
            r.0@ == (HomeState { home: home@, platform, stage: HomeStage::CreateDir }),
            asks_for(r.1, HomeStep::CreateDir),
    {
        (HomeTask { home, platform, phase: HomePhase::CreateDir }, HomeAction::CreateDir)
    }

    fn failed(self, message: String) -> (r: (HomeTask, HomeAction))
        ensures
            r.0@ == self@.failed(message@).0,
            asks_for(r.1, self@.failed(message@).1),
    {
        (HomeTask { phase: HomePhase::Ended, ..self }, HomeAction::Failed { message })
    }

    fn locate(self, index: usize) -> (r: (HomeTask, HomeAction))
        ensures
            r.0@ == self@.locate(index as nat).0,
            asks_for(r.1, self@.locate(index as nat).1),
    {
        let entries = codex_compat::codex_compat_entries();
        if index < entries.len() {
            let entry = entries[index];
            (HomeTask { phase: HomePhase::Locate { index }, ..self }, HomeAction::Locate { entry })
        } else {
            (HomeTask { phase: HomePhase::Ended, ..self }, HomeAction::Done)
        }
    }

    fn linked(self, index: usize, task: LinkTask, action: LinkAction) -> (r: (
        HomeTask,
        HomeAction,
    ))
        requires
            index < codex_compat::entry_names().len(),
        ensures
            r.0@ == self@.linked(index as nat, task@, action@).0,
            asks_for(r.1, self@.linked(index as nat, task@, action@).1),
    {
        match action {
            LinkAction::Done => self.locate(index + 1),
            LinkAction::Failed { message } => self.failed(message),
            action => (
                HomeTask { phase: HomePhase::Link { index, task }, ..self },
                HomeAction::Link { action },
            ),
        }
    }

    /// The task is at an entry of the table, where it is at one.
    pub open spec fn is_valid(self) -> bool {
        match self@.stage {
            HomeStage::Locate { index } => index < codex_compat::entry_names().len(),
            HomeStage::Link { index, .. } => index < codex_compat::entry_names().len(),
            _ => true,
        }
    }

    /// Go on with the result of what was asked for last.
    pub fn step(self, input: HomeInput) -> (r: (HomeTask, HomeAction))
        requires
            self.is_valid(),
            self@.fits(input@),
        ensures
            r.0@ == self@.next(input@).0,
            asks_for(r.1, self@.next(input@).1),
            r.0.is_valid(),
    {
        let HomeTask { home, platform, phase } = self;
        match (phase, input) {
            (HomePhase::CreateDir, HomeInput::Created(ok)) => {
                let task = HomeTask { home, platform, phase: HomePhase::CreateDir };
                if ok {
                    task.locate(0)
                } else {
                    let mut message = "create directory ".to_owned();
                    message.append(task.home.as_str());
                    task.failed(message)
                }
            },
            (
                HomePhase::Locate { index },
                HomeInput::Located { link_path, target_path, same_path },
            ) => {
                let entries = codex_compat::codex_compat_entries();
                let kind = entries[index].kind;
                assert((entries@[index as int].name@, kind)
                    == codex_compat::entry_names()[index as int]);
                let task = HomeTask { home, platform, phase: HomePhase::Locate { index } };
                let (link, action) = LinkTask::ensure_symlink(
                    link_path,
                    target_path,
                    kind,
                    same_path,
                    platform,
                );
                task.linked(index, link, action)
            },
            (HomePhase::Link { index, task: link }, HomeInput::Link(input)) => {
                let mut link = link;
                let action = link.step(input);
                let task = HomeTask { home, platform, phase: HomePhase::Locate { index } };
                task.linked(index, link, action)
            },
            (phase, _) => (HomeTask { home, platform, phase }, HomeAction::Done),
        }
    }
}

/// The part of a file system that setting the home up looks at and changes, where nothing fails:
/// whether the directory is there, and for every entry the paths of the link and of its target, and
/// what stands there.
pub struct HomeWorld {
    pub has_dir: bool,
    pub paths: Seq<(Seq<char>, Seq<char>)>,
    pub links: Seq<LinkWorld>,
}

impl HomeWorld {
    /// Do what the task asks for.
    pub open spec fn perform(self, s: HomeState, step: HomeStep) -> (HomeWorld, HomeEvent) {
        match (s.stage, step) {
            (HomeStage::Locate { index }, HomeStep::Locate { .. }) => (
                self,
                HomeEvent::Located {
                    link_path: self.paths[index as int].0,
                    target_path: self.paths[index as int].1,
                    same_path: false,
                },
            ),
            (HomeStage::Link { index, .. }, HomeStep::Link { step }) => {
                let (link, input) = self.links[index as int].perform(step);
                (
                    HomeWorld { links: self.links.update(index as int, link), ..self },
                    HomeEvent::Link(input),
                )
            },
            _ => (HomeWorld { has_dir: true, ..self }, HomeEvent::Created(true)),
        }
    }

    /// The world and the last step, after `n` steps at most.
    pub open spec fn run(self, s: HomeState, step: HomeStep, n: nat) -> (HomeWorld, HomeStep)
        decreases n,
    {
        if n == 0 || step is Done || step is Failed {
            (self, step)
        } else {
            let (world, event) = self.perform(s, step);
            let (t, next) = s.next(event);
            world.run(t, next, (n - 1) as nat)
        }
    }

    /// The home can be set up: every target that exists is of the right kind, and a platform without
    /// links has them in place already.
    pub open spec fn is_ready(self, platform: LinkPlatform) -> bool {
        &&& self.paths.len() == codex_compat::entry_names().len()
        &&& self.links.len() == codex_compat::entry_names().len()
        &&& forall|i: int| 0 <= i < self.links.len() ==> #[trigger] self.is_ready_at(i, platform)
    }

    /// The link of one entry can be made.
    pub open spec fn is_ready_at(self, i: int, platform: LinkPlatform) -> bool {
        &&& codex_compat::target_fault(
            self.paths[i].1,
            codex_compat::entry_names()[i].1,
            self.links[i].inspect_target(),
        ) is None
        &&& platform != LinkPlatform::Other || self.links[i].linked()
    }

    /// The same world with the home set up: every link points to its target.
    pub open spec fn set_up(self) -> HomeWorld {
        HomeWorld {
            has_dir: true,
            links: Seq::new(
                self.links.len(),
                |i: int|
                    LinkWorld {
                        link: WorldLink::Symlink { to_target: true },
                        ..self.links[i]
                    },
            ),
            ..self
        }
    }
}

/// The link of one entry is made, and the task goes on with the next one; `k` steps later.
proof fn lemma_link_runs(
    world: HomeWorld,
    s: HomeState,
    index: nat,
    link: LinkState,
    step: LinkStep,
    m: nat,
    n: nat,
) -> (k: nat)
    requires
        index < world.links.len(),
        s.stage == (HomeStage::Link { index, link }),
        !(step is Done),
        !(step is Failed),
        world.links[index as int].run(link, step, m).2 is Done,
        m <= n,
    ensures
        k <= m,
        ({
            let after = HomeWorld {
                links: world.links.update(
                    index as int,
                    world.links[index as int].run(link, step, m).0,
                ),
                ..world
            };
            world.run(s, HomeStep::Link { step }, n) == after.run(
                s.locate(index + 1).0,
                s.locate(index + 1).1,
                (n - k) as nat,
            )
        }),
    decreases m,
{
    let here = world.links[index as int];
    let (made, input) = here.perform(step);
    let (link2, step2) = link.next(input);
    let world2 = HomeWorld { links: world.links.update(index as int, made), ..world };
    assert(m > 0);
    assert(here.run(link, step, m) == made.run(link2, step2, (m - 1) as nat));
    assert(world.perform(s, HomeStep::Link { step }) == (world2, HomeEvent::Link(input)));
    let (t, next) = s.linked(index, link2, step2);
    assert(s.next(HomeEvent::Link(input)) == (t, next));
    assert(world.run(s, HomeStep::Link { step }, n) == world2.run(t, next, (n - 1) as nat));
    if step2 is Done {
        1
    } else {
        assert(!(step2 is Failed));
        let k = lemma_link_runs(
            world2,
            t,
            index,
            link2,
            step2,
            (m - 1) as nat,
            (n - 1) as nat,
        );
        assert(world2.links.update(
            index as int,
            made.run(link2, step2, (m - 1) as nat).0,
        ) =~= world.links.update(index as int, here.run(link, step, m).0));
        assert(t.locate(index + 1) == s.locate(index + 1));
        k + 1
    }
}

/// From the entry at a place of the table on, every link is made.
proof fn lemma_links_are_made(world: HomeWorld, s: HomeState, index: nat, n: nat)
    requires
        world.is_ready(s.platform),
        index <= world.links.len(),
        n >= 8 * (world.links.len() - index),
    ensures
        ({
            let (after, last) = world.run(s.locate(index).0, s.locate(index).1, n);
            &&& last is Done
            &&& after.has_dir == world.has_dir
            &&& after.paths == world.paths
            &&& after.links.len() == world.links.len()
            &&& forall|i: int|
                0 <= i < world.links.len() ==> #[trigger] after.links[i] == (if i < index {
                    world.links[i]
                } else {
                    world.set_up().links[i]
                })
        }),
    decreases world.links.len() - index,
{
    if index < world.links.len() {
        let at = s.at(HomeStage::Locate { index });
        let link = LinkState {
            link_path: world.paths[index as int].0,
            target_path: world.paths[index as int].1,
            kind: codex_compat::entry_names()[index as int].1,
            platform: s.platform,
            phase: LinkPhase::InspectTarget,
        };
        let linking = s.at(HomeStage::Link { index, link });
        let step = LinkStep::InspectTarget;
        assert(world.is_ready_at(index as int, s.platform));
        codex_compat::lemma_link_is_made(world.links[index as int], link);
        assert(world.run(at, HomeStep::Locate { index }, n) == world.run(
            linking,
            HomeStep::Link { step },
            (n - 1) as nat,
        ));
        let k = lemma_link_runs(world, linking, index, link, step, 7, (n - 1) as nat);
        let made = world.links[index as int].run(link, step, 7).0;
        let after = HomeWorld { links: world.links.update(index as int, made), ..world };
        assert(linking.locate(index + 1) == s.locate(index + 1));
        assert forall|i: int| 0 <= i < after.links.len() implies #[trigger] after.is_ready_at(
            i,
            s.platform,
        ) by {
            assert(world.is_ready_at(i, s.platform));
            if i == index {
                assert(after.links[i].target == world.links[i].target);
            }
        }
        lemma_links_are_made(after, s, index + 1, (n - 1 - k) as nat);
    }
}

/// A home that can be set up is set up: the directory is there, every entry of the table is a link
/// to its target, whether there was nothing before, a link that pointed elsewhere, or something
/// else; and no target is changed. A second run succeeds, and changes nothing.
pub proof fn law_home_is_set_up(world: HomeWorld, s: HomeState)
    requires
        s.stage is CreateDir,
        world.is_ready(s.platform),
    ensures
        world.run(s, HomeStep::CreateDir, 49) == (world.set_up(), HomeStep::Done),
        world.set_up().run(s, HomeStep::CreateDir, 49) == (world.set_up(), HomeStep::Done),
        codex_compat::entry_names().len() == 6,
{
    lemma_one_run(world, s);
    let after = world.set_up();
    assert forall|i: int| 0 <= i < after.links.len() implies #[trigger] after.is_ready_at(
        i,
        s.platform,
    ) by {
        assert(world.is_ready_at(i, s.platform));
        assert(after.links[i].target == world.links[i].target);
    }
    lemma_one_run(after, s);
    assert(after.set_up().links =~= after.links);
}

proof fn lemma_one_run(world: HomeWorld, s: HomeState)
    requires
        s.stage is CreateDir,
        world.is_ready(s.platform),
    ensures
        world.run(s, HomeStep::CreateDir, 49) == (world.set_up(), HomeStep::Done),
{
    let there = HomeWorld { has_dir: true, ..world };
    assert forall|i: int| 0 <= i < there.links.len() implies #[trigger] there.is_ready_at(
        i,
        s.platform,
    ) by {
        assert(world.is_ready_at(i, s.platform));
    }
    let (t, step) = s.locate(0);
    assert(world.run(s, HomeStep::CreateDir, 49) == there.run(t, step, 48));
    lemma_links_are_made(there, s, 0, 48);
    let (after, _) = there.run(t, step, 48);
    assert(after.links =~= world.set_up().links) by {
        assert forall|i: int| 0 <= i < world.links.len() implies after.links[i]
            == world.set_up().links[i] by {
            assert(there.set_up().links[i] == world.set_up().links[i]);
        }
    }
}

/// The entries are located one after the other, from the first, each link is worked on as what its
/// entry is, between the two paths that were found, and the home is done after the last one; an
/// entry that is its own target needs no link.
pub proof fn law_entries_one_after_the_other(
    s: HomeState,
    link_path: Seq<char>,
    target_path: Seq<char>,
    index: nat,
    input: LinkInput,
)
    requires
        index < 6,
    ensures
        s.stage is CreateDir ==> {
            let (t, step) = s.next(HomeEvent::Created(true));
            &&& step == (HomeStep::Locate { index: 0 })
            &&& t.stage == (HomeStage::Locate { index: 0 })
        },
        s.stage is CreateDir ==> s.next(HomeEvent::Created(false)).1 == (HomeStep::Failed {
            message: "create directory "@ + s.home,
        }),
        s.stage == (HomeStage::Locate { index }) ==> {
            let (t, step) = s.next(
                HomeEvent::Located { link_path, target_path, same_path: false },
            );
            let (u, skipped) = s.next(
                HomeEvent::Located { link_path, target_path, same_path: true },
            );
            &&& step == (HomeStep::Link { step: LinkStep::InspectTarget })
            &&& match t.stage {
                HomeStage::Link { index: i, link } => {
                    &&& i == index
                    &&& link.link_path == link_path
                    &&& link.target_path == target_path
                    &&& link.kind == codex_compat::entry_names()[index as int].1
                    &&& link.platform == s.platform
                    &&& link.phase is InspectTarget
                },
                _ => false,
            }
            &&& index < 5 ==> skipped == (HomeStep::Locate { index: index + 1 }) && u.stage == (
            HomeStage::Locate { index: index + 1 })
            &&& index == 5 ==> skipped is Done
        },
        s.stage matches HomeStage::Link { index: i, link } ==> i == index ==> {
            let (t, step) = s.next(HomeEvent::Link(input));
            match link.next(input).1 {
                LinkStep::Done => if index < 5 {
                    step == (HomeStep::Locate { index: index + 1 }) && t.stage == (
                    HomeStage::Locate { index: index + 1 })
                } else {
                    step is Done
                },
                LinkStep::Failed { message } => step == (HomeStep::Failed { message }),
                asked => step == (HomeStep::Link { step: asked }) && t.stage == (HomeStage::Link {
                    index,
                    link: link.next(input).0,
                }),
            }
        },
{
}

/// The task keeps to its home and its platform.
pub proof fn law_task_keeps_to_its_home(s: HomeState, input: HomeEvent)
    ensures
        s.next(input).0.home == s.home,
        s.next(input).0.platform == s.platform,
{
}

/// What is asked for outside is what the step says: of an entry its own name and kind, of a link
/// its own step, and of a failure its own words.
pub proof fn law_what_is_asked_for(action: HomeAction, step: HomeStep)
    requires
        asks_for(action, step),
    ensures
        step is CreateDir <==> action is CreateDir,
        step is Done <==> action is Done,
        step matches HomeStep::Locate { index } ==> (action matches HomeAction::Locate { entry }
            && index < 6 && entry.name@ == codex_compat::entry_names()[index as int].0
            && entry.kind == codex_compat::entry_names()[index as int].1),
        step matches HomeStep::Link { step: s } ==> (action matches HomeAction::Link { action: a }
            && a@ == s),
        step matches HomeStep::Failed { message } ==> (action matches HomeAction::Failed {
            message: m,
        } && m@ == message),
{
}

/// A result is read, mathematically, as what it is, with every value that it holds in its place.
pub proof fn law_input_is_read_as_it_is(result: HomeInput)
    ensures
        match result {
            HomeInput::Created(ok) => result@ is Created && result@->Created_0 == ok,
            HomeInput::Located { link_path, target_path, same_path } => {
                &&& result@ is Located
                &&& result@->Located_link_path == link_path@
                &&& result@->Located_target_path == target_path@
                &&& result@->Located_same_path == same_path
            },
            HomeInput::Link(input) => result@ is Link && result@->Link_0 == input,
        },
{
}

} // verus!
