//! The installer as a state machine: from the phase it is in and the event
//! its caller reports, to the next phase, the console output and the next
//! request.

use crate::messages::{
    dir_hint, dir_hint_text, link_warning, link_warning_text, CLONE_FAILED, CLONE_LABEL,
    CLONE_MARK, COPY_NOTICE, DIR_UNUSABLE, FINISHED, HOME_UNRESOLVED, PATH_ADVICE,
    REPOSITORY_URL, SCAN_FAILED, SETUP_DONE, SETUP_FAILED, SETUP_LABEL,
};
use crate::paths::{checkout_bin_of, layout_of, setup_program_of, Layout, LayoutView};
use crate::platform::{LinkMode, Platform};
use crate::scan::{link_plan, plan_of, task_for, LinkTask, LinkTaskView};
use crate::workflow::{
    check_dir, dir_status_of, Console, ConsoleView, DirStatus, Event, EventView, Request,
    RequestView, Step, StepView,
};
use vstd::prelude::*;
use vstd::string::*;

verus! {

/// One of the three directories the installer makes sure of.
#[derive(Clone, Copy, Debug, PartialEq, Eq, Structural)]
pub enum Target {
    Tools,
    Checkout,
    Bin,
}

/// Why a run was given up.
#[derive(Clone, Copy, Debug, PartialEq, Eq, Structural)]
pub enum Fatal {
    /// The home directory could not be resolved.
    HomeUnresolved,
    /// The repository could not be cloned.
    CloneFailed,
    /// The checkout's bin folder could not be listed.
    ScanFailed,
}

/// Where a run stands. In every phase but the last two the installer waits
/// for the answer to one request.
#[derive(Clone, Copy, Debug, PartialEq, Eq, Structural)]
pub enum Phase {
    /// Waiting for the home directory.
    ResolvingHome,
    /// Waiting for the attempt to make the given target directory.
    EnsuringDir(Target),
    /// Waiting for the clone.
    Cloning,
    /// Waiting for the listing of the checkout's bin folder.
    Scanning,
    /// Waiting for one file of the plan to be linked.
    Linking,
    /// Waiting for the SDK's first run.
    SettingUp,
    /// The run went through; the exit code is zero.
    Completed,
    /// The run was given up; the exit code is not zero.
    Aborted(Fatal),
}

/// The state of a run as plain values.
pub struct State {
    /// The platform the run was started for.
    pub platform: Platform,
    /// Whether the SDK is run once after linking.
    pub with_setup: bool,
    pub phase: Phase,
    /// The target directories; empty until the home directory is known.
    pub layout: LayoutView,
    /// The files to link, drawn up when the checkout has been scanned.
    pub plan: Seq<LinkTaskView>,
    /// How many files of the plan have been attempted.
    pub cursor: nat,
}

impl State {
    /// There is no plan before the home directory is known; while files are
    /// linked, the one in hand is a file of the plan; and every task of the
    /// plan is the one that links its file within the layout, by the
    /// platform's strategy.
    pub open spec fn wf(self) -> bool {
        &&& self.phase == Phase::ResolvingHome ==> self.plan.len() == 0
        &&& self.phase == Phase::Linking ==> self.cursor < self.plan.len()
        &&& forall|i: int|
            0 <= i < self.plan.len() ==> #[trigger] self.plan[i] == task_for(
                self.platform,
                self.layout,
                self.plan[i].name,
            )
    }
}

/// The state a run starts in.
pub open spec fn initial(platform: Platform, with_setup: bool) -> State {
    State {
        platform,
        with_setup,
        phase: Phase::ResolvingHome,
        layout: LayoutView { tools: Seq::empty(), checkout: Seq::empty(), bin: Seq::empty() },
        plan: Seq::empty(),
        cursor: 0,
    }
}

/// The path of a target directory.
pub open spec fn target_path(layout: LayoutView, target: Target) -> Seq<char> {
    match target {
        Target::Tools => layout.tools,
        Target::Checkout => layout.checkout,
        Target::Bin => layout.bin,
    }
}

/// Whether `event` answers the request that is open in `phase`.
pub open spec fn accepts(phase: Phase, event: EventView) -> bool {
    match phase {
        Phase::ResolvingHome => event is Home,
        Phase::EnsuringDir(_) => event is DirChecked,
        Phase::Cloning => event is Cloned,
        Phase::Scanning => event is Scanned,
        Phase::Linking => event is Linked,
        Phase::SettingUp => event is SetupRan,
        Phase::Completed => false,
        Phase::Aborted(_) => false,
    }
}

/// The phase that follows the last link.
pub open spec fn after_links(with_setup: bool) -> Phase {
    if with_setup {
        Phase::SettingUp
    } else {
        Phase::Completed
    }
}

/// The state that follows `s` when `event` is reported. An event that does
/// not answer the open request changes nothing.
pub open spec fn transition(s: State, event: EventView) -> State {
    match (s.phase, event) {
        (Phase::ResolvingHome, EventView::Home { path: Some(home) }) => State {
            phase: Phase::EnsuringDir(Target::Tools),
            layout: layout_of(s.platform, home),
            ..s
        },
        (Phase::ResolvingHome, EventView::Home { path: None }) => State {
            phase: Phase::Aborted(Fatal::HomeUnresolved),
            ..s
        },
        (Phase::EnsuringDir(Target::Tools), EventView::DirChecked { .. }) => State {
            phase: Phase::EnsuringDir(Target::Checkout),
            ..s
        },
        (Phase::EnsuringDir(Target::Checkout), EventView::DirChecked { .. }) => State {
            phase: Phase::EnsuringDir(Target::Bin),
            ..s
        },
        (Phase::EnsuringDir(Target::Bin), EventView::DirChecked { .. }) => State {
            phase: Phase::Cloning,
            ..s
        },
        (Phase::Cloning, EventView::Cloned { ok }) => State {
            phase: if ok {
                Phase::Scanning
            } else {
                Phase::Aborted(Fatal::CloneFailed)
            },
            ..s
        },
        (Phase::Scanning, EventView::Scanned { entries: None }) => State {
            phase: Phase::Aborted(Fatal::ScanFailed),
            ..s
        },
        (Phase::Scanning, EventView::Scanned { entries: Some(entries) }) => {
            let plan = plan_of(s.platform, s.layout, entries);
            State {
                phase: if plan.len() > 0 {
                    Phase::Linking
                } else {
                    after_links(s.with_setup)
                },
                plan,
                cursor: 0,
                ..s
            }
        },
        (Phase::Linking, EventView::Linked { .. }) => State {
            phase: if s.cursor + 1 < s.plan.len() {
                Phase::Linking
            } else {
                after_links(s.with_setup)
            },
            cursor: s.cursor + 1,
            ..s
        },
        (Phase::SettingUp, EventView::SetupRan { .. }) => State { phase: Phase::Completed, ..s },
        _ => s,
    }
}

/// What is said about `event` itself when it is reported in state `s`.
pub open spec fn reaction(s: State, event: EventView) -> Seq<ConsoleView> {
    match (s.phase, event) {
        (Phase::ResolvingHome, EventView::Home { path: None }) => seq![
            ConsoleView::Line(HOME_UNRESOLVED@),
        ],
        (Phase::EnsuringDir(target), EventView::DirChecked { created, exists }) => {
            if dir_status_of(created, exists) == DirStatus::Unusable {
                seq![
                    ConsoleView::Line(DIR_UNUSABLE@),
                    ConsoleView::Line(dir_hint_text(target_path(s.layout, target))),
                ]
            } else {
                seq![]
            }
        },
        (Phase::Cloning, EventView::Cloned { ok }) => {
            let stopped = seq![
                ConsoleView::SpinnerMark(CLONE_MARK@),
                ConsoleView::Line(Seq::empty()),
            ];
            if ok {
                stopped
            } else {
                stopped.push(ConsoleView::Line(CLONE_FAILED@))
            }
        },
        (Phase::Scanning, EventView::Scanned { entries: None }) => seq![
            ConsoleView::Line(SCAN_FAILED@),
        ],
        (Phase::Linking, EventView::Linked { ok }) => {
            if ok {
                seq![]
            } else {
                seq![ConsoleView::Line(link_warning_text(s.plan[s.cursor as int].name))]
            }
        },
        (Phase::SettingUp, EventView::SetupRan { ok }) => seq![
            ConsoleView::SpinnerMessage(
                if ok {
                    SETUP_DONE@
                } else {
                    SETUP_FAILED@
                },
            ),
        ],
        _ => seq![],
    }
}

/// What is said when the phase of `s` begins.
pub open spec fn announcement(s: State) -> Seq<ConsoleView> {
    match s.phase {
        Phase::Cloning => seq![ConsoleView::SpinnerStart(CLONE_LABEL@)],
        Phase::Scanning => {
            if s.platform.spec_link_mode() == LinkMode::Copy {
                seq![ConsoleView::Line(COPY_NOTICE@)]
            } else {
                seq![]
            }
        },
        Phase::SettingUp => seq![ConsoleView::SpinnerStart(SETUP_LABEL@)],
        Phase::Completed => seq![
            ConsoleView::Line(FINISHED@),
            ConsoleView::Line(PATH_ADVICE@),
            ConsoleView::Line(s.layout.bin),
        ],
        _ => seq![],
    }
}

/// Everything that is said when `event` is reported in state `s`: first
/// what concerns the event, then, where a new phase begins, what announces
/// it.
pub open spec fn output(s: State, event: EventView) -> Seq<ConsoleView> {
    let next = transition(s, event);
    if next.phase == s.phase {
        reaction(s, event)
    } else {
        reaction(s, event) + announcement(next)
    }
}

/// The request that is open in state `s`.
pub open spec fn pending_of(s: State) -> RequestView {
    match s.phase {
        Phase::ResolvingHome => RequestView::ResolveHome,
        Phase::EnsuringDir(target) => RequestView::CreateDir {
            path: target_path(s.layout, target),
        },
        Phase::Cloning => RequestView::CloneRepository {
            url: REPOSITORY_URL@,
            into: s.layout.checkout,
        },
        Phase::Scanning => RequestView::ScanDir { path: checkout_bin_of(s.platform, s.layout) },
        Phase::Linking => RequestView::Link { task: s.plan[s.cursor as int] },
        Phase::SettingUp => RequestView::RunSetup {
            program: setup_program_of(s.platform, s.layout),
        },
        Phase::Completed => RequestView::Exit { code: 0 },
        Phase::Aborted(_) => RequestView::Exit { code: 1 },
    }
}

/// The installer's answer when `event` is reported in state `s`.
pub open spec fn step_of(s: State, event: EventView) -> StepView {
    StepView { console: output(s, event), request: pending_of(transition(s, event)) }
}

/// The state after a whole series of events, reported one after the other
/// from state `s` on.
pub open spec fn run(s: State, events: Seq<EventView>) -> State
    decreases events.len(),
{
    if events.len() == 0 {
        s
    } else {
        run(transition(s, events.first()), events.skip(1))
    }
}

/// An event was reported that does not answer the open request.
#[derive(Clone, Copy, Debug, PartialEq, Eq, Structural)]
pub struct Unexpected {
    /// The phase in which the event arrived.
    pub phase: Phase,
}

/// One run of the installer.
pub struct Installer {
    platform: Platform,
    with_setup: bool,
    phase: Phase,
    layout: Layout,
    plan: Vec<LinkTask>,
    cursor: usize,
}

impl View for Installer {
    type V = State;

    closed spec fn view(&self) -> State {
        State {
            platform: self.platform,
            with_setup: self.with_setup,
            phase: self.phase,
            layout: self.layout.deep_view(),
            plan: self.plan.deep_view(),
            cursor: self.cursor as nat,
        }
    }
}

/// Appends one item to the console output.
fn say(console: &mut Vec<Console>, item: Console)
    ensures
        final(console).deep_view() == old(console).deep_view().push(item.deep_view()),
{
    console.push(item);
    assert(console.deep_view() =~= old(console).deep_view().push(item.deep_view()));
}

impl Installer {
    #[verifier::type_invariant]
    spec fn inv(self) -> bool {
        self@.wf()
    }

    /// A run on `platform` that has not begun. With `with_setup` the SDK is
    /// run once after linking, so that it can set itself up.
    pub fn new(platform: Platform, with_setup: bool) -> (installer: Installer)
        ensures
            installer@ == initial(platform, with_setup),
    {
        let installer = Installer {
            platform,
            with_setup,
            phase: Phase::ResolvingHome,
            layout: Layout { tools: String::new(), checkout: String::new(), bin: String::new() },
            plan: Vec::new(),
            cursor: 0,
        };
        assert(installer.plan.deep_view() =~= Seq::empty());
        installer
    }

    /// The phase the run is in.
    pub fn phase(&self) -> (phase: Phase)
        ensures
            phase == self@.phase,
    {
        self.phase
    }

    /// The request that is open: what the caller is to do now.
    pub fn pending(&self) -> (request: Request)
        ensures
            self@.wf(),
            request.deep_view() == pending_of(self@),
    {
        proof {
            use_type_invariant(self);
        }
        match self.phase {
            Phase::ResolvingHome => Request::ResolveHome,
            Phase::EnsuringDir(target) => {
                let path = match target {
                    Target::Tools => self.layout.tools.clone(),
                    Target::Checkout => self.layout.checkout.clone(),
                    Target::Bin => self.layout.bin.clone(),
                };
                Request::CreateDir { path }
            },
            Phase::Cloning => Request::CloneRepository {
                url: REPOSITORY_URL.to_owned(),
                into: self.layout.checkout.clone(),
            },
            Phase::Scanning => Request::ScanDir { path: self.layout.checkout_bin(self.platform) },
            Phase::Linking => Request::Link { task: self.plan[self.cursor].clone() },
            Phase::SettingUp => Request::RunSetup {
                program: self.layout.setup_program(self.platform),
            },
            Phase::Completed => Request::Exit { code: 0 },
            Phase::Aborted(_) => Request::Exit { code: 1 },
        }
    }

    /// Appends what announces the phase the run is in.
    fn announce(&self, console: &mut Vec<Console>)
        ensures
            final(console).deep_view() == old(console).deep_view() + announcement(self@),
    {
        match self.phase {
            Phase::Cloning => {
                say(console, Console::SpinnerStart(CLONE_LABEL.to_owned()));
            },
            Phase::Scanning => {
                match self.platform.link_mode() {
                    LinkMode::Copy => {
                        say(console, Console::Line(COPY_NOTICE.to_owned()));
                    },
                    LinkMode::Symlink => {},
                }
            },
            Phase::SettingUp => {
                say(console, Console::SpinnerStart(SETUP_LABEL.to_owned()));
            },
            Phase::Completed => {
                say(console, Console::Line(FINISHED.to_owned()));
                say(console, Console::Line(PATH_ADVICE.to_owned()));
                say(console, Console::Line(self.layout.bin.clone()));
            },
            _ => {},
        }
        assert(console.deep_view() =~= old(console).deep_view() + announcement(self@));
    }

    /// Takes the answer to the open request and moves the run on: returns
    /// what to show and what to do next. An event that does not answer the
    /// open request is refused and changes nothing; once the run has ended
    /// every event is refused.
    pub fn step(&mut self, event: Event) -> (result: Result<Step, Unexpected>)
        ensures
            accepts(old(self)@.phase, event.deep_view()) ==> {
                &&& result is Ok
                &&& final(self)@ == transition(old(self)@, event.deep_view())
                &&& result->Ok_0.deep_view() == step_of(old(self)@, event.deep_view())
            },
            !accepts(old(self)@.phase, event.deep_view()) ==> {
                &&& result == Err::<Step, Unexpected>(Unexpected { phase: old(self)@.phase })
                &&& final(self)@ == old(self)@
            },
    {
        proof {
            use_type_invariant(&*self);
            assert(self.phase == Phase::Linking ==> self.cursor < self.plan.len());
        }
        let before = self.phase;
        let mut console: Vec<Console> = Vec::new();
        assert(console.deep_view() =~= Seq::empty());
        match (before, event) {
            (Phase::ResolvingHome, Event::Home { path: Some(home) }) => {
                self.layout = Layout::for_home(self.platform, home.as_str());
                self.phase = Phase::EnsuringDir(Target::Tools);
            },
            (Phase::ResolvingHome, Event::Home { path: None }) => {
                say(&mut console, Console::Line(HOME_UNRESOLVED.to_owned()));
                self.phase = Phase::Aborted(Fatal::HomeUnresolved);
            },
            (Phase::EnsuringDir(target), Event::DirChecked { created, exists }) => {
                match check_dir(created, exists) {
                    DirStatus::Unusable => {
                        let hint = match target {
                            Target::Tools => dir_hint(self.layout.tools.as_str()),
                            Target::Checkout => dir_hint(self.layout.checkout.as_str()),
                            Target::Bin => dir_hint(self.layout.bin.as_str()),
                        };
                        say(&mut console, Console::Line(DIR_UNUSABLE.to_owned()));
                        say(&mut console, Console::Line(hint));
                    },
                    DirStatus::Ready => {},
                }
                self.phase = match target {
                    Target::Tools => Phase::EnsuringDir(Target::Checkout),
                    Target::Checkout => Phase::EnsuringDir(Target::Bin),
                    Target::Bin => Phase::Cloning,
                };
            },
            (Phase::Cloning, Event::Cloned { ok }) => {
                say(&mut console, Console::SpinnerMark(CLONE_MARK.to_owned()));
                say(&mut console, Console::Line(String::new()));
                if ok {
                    self.phase = Phase::Scanning;
                } else {
                    say(&mut console, Console::Line(CLONE_FAILED.to_owned()));
                    self.phase = Phase::Aborted(Fatal::CloneFailed);
                }
            },
            (Phase::Scanning, Event::Scanned { entries: None }) => {
                say(&mut console, Console::Line(SCAN_FAILED.to_owned()));
                self.phase = Phase::Aborted(Fatal::ScanFailed);
            },
            (Phase::Scanning, Event::Scanned { entries: Some(entries) }) => {
                self.plan = link_plan(self.platform, &self.layout, &entries);
                self.cursor = 0;
                if self.plan.len() == 0 {
                    self.phase = self.after_links();
                } else {
                    self.phase = Phase::Linking;
                }
            },
            (Phase::Linking, Event::Linked { ok }) => {
                if !ok {
                    let warning = link_warning(self.plan[self.cursor].name.as_str());
                    say(&mut console, Console::Line(warning));
                }
                if self.cursor + 1 < self.plan.len() {
                    self.cursor = self.cursor + 1;
                } else {
                    self.phase = self.after_links();
                    self.cursor = self.cursor + 1;
                }
            },
            (Phase::SettingUp, Event::SetupRan { ok }) => {
                let message = if ok {
                    SETUP_DONE
                } else {
                    SETUP_FAILED
                };
                say(&mut console, Console::SpinnerMessage(message.to_owned()));
                self.phase = Phase::Completed;
            },
            _ => {
                return Err(Unexpected { phase: before });
            },
        }
        assert(console.deep_view() =~= reaction(old(self)@, event.deep_view()));
        if self.phase != before {
            self.announce(&mut console);
        }
        let request = self.pending();
        Ok(Step { console, request })
    }

    /// The phase that follows the last link.
    fn after_links(&self) -> (phase: Phase)
        ensures
            phase == after_links(self@.with_setup),
    {
        if self.with_setup {
            Phase::SettingUp
        } else {
            Phase::Completed
        }
    }
}

} // verus!
