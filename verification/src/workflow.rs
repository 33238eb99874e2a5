//! The vocabulary between the installer and its caller: what the installer
//! asks for, what the caller reports back, and what is shown on the console.

use crate::scan::{LinkTask, LinkTaskView, ScanEntry, ScanEntryView};
use vstd::prelude::*;

verus! {

/// Whether a target directory can be used.
#[derive(Clone, Copy, Debug, PartialEq, Eq, Structural)]
pub enum DirStatus {
    /// The directory was made, or was there already.
    Ready,
    /// The directory could not be made and is not there.
    Unusable,
}

/// The status of a target directory after one attempt to make it.
pub open spec fn dir_status_of(created: bool, exists: bool) -> DirStatus {
    if created || exists {
        DirStatus::Ready
    } else {
        DirStatus::Unusable
    }
}

/// Judges one attempt to make a target directory. `created` says whether the
/// attempt succeeded, `exists` whether the path is there afterwards: a
/// directory that exists counts as ready, however the attempt went.
pub fn check_dir(created: bool, exists: bool) -> (status: DirStatus)
    ensures
        status == dir_status_of(created, exists),
{
    if !created && !exists {
        DirStatus::Unusable
    } else {
        DirStatus::Ready
    }
}

/// One thing shown on the console.
#[derive(Debug, PartialEq, Eq)]
pub enum Console {
    /// A line of text, followed by a line break.
    Line(String),
    /// A progress indicator that runs beside the given label until it is
    /// stopped.
    SpinnerStart(String),
    /// Stops the progress indicator and puts the given mark in its place.
    SpinnerMark(String),
    /// Stops the progress indicator and puts the given message in its place.
    SpinnerMessage(String),
}

/// A [`Console`] item as plain text.
pub enum ConsoleView {
    Line(Seq<char>),
    SpinnerStart(Seq<char>),
    SpinnerMark(Seq<char>),
    SpinnerMessage(Seq<char>),
}

impl DeepView for Console {
    type V = ConsoleView;

    open spec fn deep_view(&self) -> ConsoleView {
        match self {
            Console::Line(text) => ConsoleView::Line(text@),
            Console::SpinnerStart(text) => ConsoleView::SpinnerStart(text@),
            Console::SpinnerMark(text) => ConsoleView::SpinnerMark(text@),
            Console::SpinnerMessage(text) => ConsoleView::SpinnerMessage(text@),
        }
    }
}

/// What the installer asks its caller to do next. Every request but
/// [`Request::Exit`] is answered by one [`Event`].
#[derive(Debug, PartialEq, Eq)]
pub enum Request {
    /// Find the user's home directory. Answered by [`Event::Home`].
    ResolveHome,
    /// Make the directory `path`, not its parents, and look whether it is
    /// there. Answered by [`Event::DirChecked`].
    CreateDir { path: String },
    /// Clone the repository at `url` into the directory `into`. Answered by
    /// [`Event::Cloned`].
    CloneRepository { url: String, into: String },
    /// List the immediate children of the directory `path`. Answered by
    /// [`Event::Scanned`].
    ScanDir { path: String },
    /// Link or copy one file. Answered by [`Event::Linked`].
    Link { task: LinkTask },
    /// Run `program` without arguments and wait for it. Answered by
    /// [`Event::SetupRan`].
    RunSetup { program: String },
    /// End the process with the given exit code.
    Exit { code: i32 },
}

/// A [`Request`] as plain values.
pub enum RequestView {
    ResolveHome,
    CreateDir { path: Seq<char> },
    CloneRepository { url: Seq<char>, into: Seq<char> },
    ScanDir { path: Seq<char> },
    Link { task: LinkTaskView },
    RunSetup { program: Seq<char> },
    Exit { code: i32 },
}

impl DeepView for Request {
    type V = RequestView;

    open spec fn deep_view(&self) -> RequestView {
        match self {
            Request::ResolveHome => RequestView::ResolveHome,
            Request::CreateDir { path } => RequestView::CreateDir { path: path@ },
            Request::CloneRepository { url, into } => RequestView::CloneRepository {
                url: url@,
                into: into@,
            },
            Request::ScanDir { path } => RequestView::ScanDir { path: path@ },
            Request::Link { task } => RequestView::Link { task: task.deep_view() },
            Request::RunSetup { program } => RequestView::RunSetup { program: program@ },
            Request::Exit { code } => RequestView::Exit { code: *code },
        }
    }
}

/// Whether carrying out a request can change anything outside the process:
/// the file system, or whatever the SDK's executable does.
pub open spec fn is_write(request: RequestView) -> bool {
    request is CreateDir || request is CloneRepository || request is Link || request is RunSetup
}

/// What the caller reports back after carrying out a request.
#[derive(Debug, PartialEq, Eq)]
pub enum Event {
    /// The home directory, or `None` where it cannot be resolved.
    Home { path: Option<String> },
    /// The outcome of making a directory: whether it was made, and whether
    /// the path is there now.
    DirChecked { created: bool, exists: bool },
    /// Whether the clone succeeded.
    Cloned { ok: bool },
    /// The children of the scanned directory in the order the file system
    /// gave them, or `None` where the directory cannot be listed.
    Scanned { entries: Option<Vec<ScanEntry>> },
    /// Whether the file was linked or copied.
    Linked { ok: bool },
    /// Whether the SDK's executable could be run.
    SetupRan { ok: bool },
}

/// An [`Event`] as plain values.
pub enum EventView {
    Home { path: Option<Seq<char>> },
    DirChecked { created: bool, exists: bool },
    Cloned { ok: bool },
    Scanned { entries: Option<Seq<ScanEntryView>> },
    Linked { ok: bool },
    SetupRan { ok: bool },
}

impl DeepView for Event {
    type V = EventView;

    open spec fn deep_view(&self) -> EventView {
        match self {
            Event::Home { path } => EventView::Home { path: path.deep_view() },
            Event::DirChecked { created, exists } => EventView::DirChecked {
                created: *created,
                exists: *exists,
            },
            Event::Cloned { ok } => EventView::Cloned { ok: *ok },
            Event::Scanned { entries } => EventView::Scanned { entries: entries.deep_view() },
            Event::Linked { ok } => EventView::Linked { ok: *ok },
            Event::SetupRan { ok } => EventView::SetupRan { ok: *ok },
        }
    }
}

/// The installer's answer to an event: what to show, in this order, and then
/// what to do.
#[derive(Debug, PartialEq, Eq)]
pub struct Step {
    pub console: Vec<Console>,
    pub request: Request,
}

/// A [`Step`] as plain values.
pub struct StepView {
    pub console: Seq<ConsoleView>,
    pub request: RequestView,
}

impl DeepView for Step {
    type V = StepView;

    open spec fn deep_view(&self) -> StepView {
        StepView { console: self.console.deep_view(), request: self.request.deep_view() }
    }
}

} // verus!
