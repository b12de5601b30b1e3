use vstd::prelude::*;

use crate::config::DirCopy;
use crate::paths::{
    PathView, append_components, copy_bytes, copy_components, relative_to, strip_components,
};

verus! {

/// What an entry of the walked source tree is (symbolic links are reported
/// as links, by their own event).
#[derive(Debug, Clone, Copy, PartialEq, Eq, Structural)]
pub enum EntryKind {
    File,
    Dir,
    /// Neither a file, a directory nor a symbolic link.
    Other,
}

/// What the target of a file holds, links followed.
#[derive(Debug, Clone, Copy, PartialEq, Eq, Structural)]
pub enum TargetKind {
    /// Nothing (a dangling link included).
    Missing,
    File,
    /// Something that is not a file, such as a directory.
    Other,
}

/// Which answer a run of the copy waits for next.
#[derive(Debug, Clone, Copy, PartialEq, Eq, Structural)]
pub enum Stage {
    /// The canonical form of the source directory.
    ResolveSource,
    /// Whether the destination already is a directory.
    CheckDestination,
    /// The outcome of creating the destination directory.
    CreateDestination,
    /// The canonical form of the destination directory.
    ResolveDestination,
    /// The next entry of the source tree.
    NextEntry,
    /// What the target of the current file holds.
    CheckTarget,
    /// The modification times of the current file and of its target.
    CompareTimes,
    /// The outcome of copying the current file.
    CopyFile,
    /// The outcome of creating the target directory of the current entry.
    MakeDir,
    /// Whether anything exists at the target of the current link.
    CheckLink,
    /// The outcome of making the link at the target of the current link.
    MakeLink,
    /// Nothing: the copy succeeded.
    Finished,
    /// Nothing: an operation failed and the copy ended with its error.
    Failed,
    /// Nothing: an answer did not fit, and the copy cannot go on.
    Halted,
}

/// An answer to the last action of a run.
#[derive(Debug, Clone, PartialEq, Eq)]
pub enum Event {
    /// The components of a canonical path.
    Resolved(Vec<Vec<u8>>),
    /// Whether the destination is a directory.
    IsDir(bool),
    /// What the target of the current file holds.
    Target(TargetKind),
    /// Whether anything, a dangling link included, exists at the target of
    /// the current link.
    Exists(bool),
    /// Modification times, in nanoseconds since the Unix epoch (negative
    /// before it), of the current file and of its target.
    Modified { source: i128, target: i128 },
    /// The next entry of the source tree, not a symbolic link: its path in
    /// components, and what it is.
    Entry { path: Vec<Vec<u8>>, kind: EntryKind },
    /// The next entry of the source tree is a symbolic link to `target`.
    Link { path: Vec<Vec<u8>>, target: Vec<u8> },
    /// The walk met an entry it could not read.
    Unreadable,
    /// The walk of the source tree has no more entries.
    WalkEnd,
    /// The operation asked for succeeded.
    Succeeded,
    /// The operation asked for failed.
    Failed,
}

/// What a run asks its driver to do next.
#[derive(Debug, Clone, PartialEq, Eq)]
pub enum Action {
    /// Canonicalize the configured path; answer `Resolved`.
    Resolve(String),
    /// Tell whether the configured path is a directory; answer `IsDir`.
    QueryIsDir(String),
    /// Create the configured directory and its parents; answer `Succeeded`
    /// or `Failed`.
    CreateRoot(String),
    /// Begin walking the tree under this directory (itself included, links
    /// not followed); answer with its first entry or `WalkEnd`.
    StartWalk(Vec<Vec<u8>>),
    /// Answer with the next entry of the walk, or `WalkEnd`.
    NextEntry,
    /// Tell what this path holds, links followed; answer `Target`.
    QueryTarget(Vec<Vec<u8>>),
    /// Tell whether anything exists at this path, links not followed;
    /// answer `Exists`.
    QueryExists(Vec<Vec<u8>>),
    /// Read the modification times of both files; answer `Modified`.
    QueryModified { source: Vec<Vec<u8>>, target: Vec<Vec<u8>> },
    /// Copy the file `from` to `to`; answer `Succeeded` or `Failed`.
    CopyFile { from: Vec<Vec<u8>>, to: Vec<Vec<u8>> },
    /// Create this directory and its parents; answer `Succeeded` or `Failed`.
    CreateDir(Vec<Vec<u8>>),
    /// Make a symbolic link to `target` at `at`, where nothing exists;
    /// answer `Succeeded` or `Failed`.
    CreateLink { target: Vec<u8>, at: Vec<Vec<u8>> },
    /// Remove what is at `at` and make a symbolic link to `target` there;
    /// answer `Succeeded` or `Failed`.
    ReplaceLink { target: Vec<u8>, at: Vec<Vec<u8>> },
    /// The copy is over: successfully when the flag is set, else with the
    /// error of the operation that failed.
    Finish(bool),
    /// The copy cannot go on.
    Halt,
}

/// The abstract content of an `Event`.
pub enum EventView {
    Resolved(PathView),
    IsDir(bool),
    Target(TargetKind),
    Exists(bool),
    Modified { source: i128, target: i128 },
    Entry { path: PathView, kind: EntryKind },
    Link { path: PathView, target: Seq<u8> },
    Unreadable,
    WalkEnd,
    Succeeded,
    Failed,
}

/// The abstract content of an `Action`.
pub enum ActionView {
    Resolve(Seq<char>),
    QueryIsDir(Seq<char>),
    CreateRoot(Seq<char>),
    StartWalk(PathView),
    NextEntry,
    QueryTarget(PathView),
    QueryExists(PathView),
    QueryModified { source: PathView, target: PathView },
    CopyFile { from: PathView, to: PathView },
    CreateDir(PathView),
    CreateLink { target: Seq<u8>, at: PathView },
    ReplaceLink { target: Seq<u8>, at: PathView },
    Finish(bool),
    Halt,
}

impl View for Event {
    type V = EventView;

    open spec fn view(&self) -> EventView {
        match self {
            Event::Resolved(p) => EventView::Resolved(p.deep_view()),
            Event::IsDir(b) => EventView::IsDir(*b),
            Event::Target(k) => EventView::Target(*k),
            Event::Exists(b) => EventView::Exists(*b),
            Event::Modified { source, target } => EventView::Modified {
                source: *source,
                target: *target,
            },
            Event::Entry { path, kind } => EventView::Entry { path: path.deep_view(), kind: *kind },
            Event::Link { path, target } => EventView::Link {
                path: path.deep_view(),
                target: target@,
            },
            Event::Unreadable => EventView::Unreadable,
            Event::WalkEnd => EventView::WalkEnd,
            Event::Succeeded => EventView::Succeeded,
            Event::Failed => EventView::Failed,
        }
    }
}

impl View for Action {
    type V = ActionView;

    open spec fn view(&self) -> ActionView {
        match self {
            Action::Resolve(p) => ActionView::Resolve(p@),
            Action::QueryIsDir(p) => ActionView::QueryIsDir(p@),
            Action::CreateRoot(p) => ActionView::CreateRoot(p@),
            Action::StartWalk(p) => ActionView::StartWalk(p.deep_view()),
            Action::NextEntry => ActionView::NextEntry,
            Action::QueryTarget(p) => ActionView::QueryTarget(p.deep_view()),
            Action::QueryExists(p) => ActionView::QueryExists(p.deep_view()),
            Action::QueryModified { source, target } => ActionView::QueryModified {
                source: source.deep_view(),
                target: target.deep_view(),
            },
            Action::CopyFile { from, to } => ActionView::CopyFile {
                from: from.deep_view(),
                to: to.deep_view(),
            },
            Action::CreateDir(p) => ActionView::CreateDir(p.deep_view()),
            Action::CreateLink { target, at } => ActionView::CreateLink {
                target: target@,
                at: at.deep_view(),
            },
            Action::ReplaceLink { target, at } => ActionView::ReplaceLink {
                target: target@,
                at: at.deep_view(),
            },
            Action::Finish(ok) => ActionView::Finish(*ok),
            Action::Halt => ActionView::Halt,
        }
    }
}

/// The abstract state of a run.
pub struct RunView {
    pub overwrite: bool,
    pub overwrite_only_newer: bool,
    /// The configured destination path.
    pub destination: Seq<char>,
    /// The canonical source directory, once resolved.
    pub abs_source: PathView,
    /// The canonical destination directory, once resolved.
    pub abs_dest: PathView,
    /// The entry being handled.
    pub from: PathView,
    /// Where that entry goes.
    pub to: PathView,
    /// The target of the entry being handled, when it is a link.
    pub link: Seq<u8>,
    pub stage: Stage,
}

/// The state of a run just created from `config`.
pub open spec fn initial(config: DirCopy) -> RunView {
    RunView {
        overwrite: config.overwrite,
        overwrite_only_newer: config.overwrite_only_newer,
        destination: config.destination@,
        abs_source: Seq::empty(),
        abs_dest: Seq::empty(),
        from: Seq::empty(),
        to: Seq::empty(),
        link: Seq::empty(),
        stage: Stage::ResolveSource,
    }
}

/// Where the entry `path` of the tree under `abs_source` goes: the same
/// relative place under `abs_dest`.
pub open spec fn target_of(path: PathView, abs_source: PathView, abs_dest: PathView) -> Option<
    PathView,
> {
    match relative_to(path, abs_source) {
        Some(rel) => Some(abs_dest + rel),
        None => None,
    }
}

/// Whether `path` is part of the copy being made: the destination lies
/// inside the source, and `path` is the destination or lies under it.
pub open spec fn inside_destination(s: RunView, path: PathView) -> bool {
    relative_to(s.abs_dest, s.abs_source) is Some && relative_to(path, s.abs_dest) is Some
}

/// The run moved to `stage`, with the action `action`.
pub open spec fn go(s: RunView, stage: Stage, action: ActionView) -> (RunView, ActionView) {
    (RunView { stage, ..s }, action)
}

/// The current file is copied to its target.
pub open spec fn copy(s: RunView) -> (RunView, ActionView) {
    go(s, Stage::CopyFile, ActionView::CopyFile { from: s.from, to: s.to })
}

/// What is done with the current entry, by its kind. A file is copied at
/// once when overwriting without regard to times; otherwise its target is
/// looked at first. A directory is created; anything else is passed over.
pub open spec fn on_entry(s: RunView, kind: EntryKind) -> (RunView, ActionView) {
    match kind {
        EntryKind::File => if s.overwrite && !s.overwrite_only_newer {
            copy(s)
        } else {
            go(s, Stage::CheckTarget, ActionView::QueryTarget(s.to))
        },
        EntryKind::Dir => go(s, Stage::MakeDir, ActionView::CreateDir(s.to)),
        EntryKind::Other => go(s, Stage::NextEntry, ActionView::NextEntry),
    }
}

/// What is done with a file whose target has been looked at: a missing
/// target is written; an existing file is kept when not overwriting; else
/// times are compared first when only newer files replace targets, and the
/// file is copied otherwise.
pub open spec fn on_target(s: RunView, kind: TargetKind) -> (RunView, ActionView) {
    if kind == TargetKind::Missing {
        copy(s)
    } else if kind == TargetKind::File && !s.overwrite {
        go(s, Stage::NextEntry, ActionView::NextEntry)
    } else if s.overwrite_only_newer {
        go(s, Stage::CompareTimes, ActionView::QueryModified { source: s.from, target: s.to })
    } else {
        copy(s)
    }
}

/// The answer to an operation that may fail: on success go on with the next
/// entry, on failure end the copy with the error.
pub open spec fn after_operation(s: RunView, e: EventView, next_stage: Stage, next_action: ActionView) -> (
    RunView,
    ActionView,
) {
    match e {
        EventView::Succeeded => go(s, next_stage, next_action),
        EventView::Failed => go(s, Stage::Failed, ActionView::Finish(false)),
        _ => go(s, Stage::Halted, ActionView::Halt),
    }
}

/// The answer to a request for the next entry.
pub open spec fn on_walk(s: RunView, e: EventView) -> (RunView, ActionView) {
    match e {
        EventView::Entry { path, kind } => if inside_destination(s, path) {
            go(s, Stage::NextEntry, ActionView::NextEntry)
        } else {
            match target_of(path, s.abs_source, s.abs_dest) {
                Some(to) => on_entry(RunView { from: path, to, ..s }, kind),
                None => go(s, Stage::Halted, ActionView::Halt),
            }
        },
        EventView::Link { path, target } => if inside_destination(s, path) {
            go(s, Stage::NextEntry, ActionView::NextEntry)
        } else {
            match target_of(path, s.abs_source, s.abs_dest) {
                Some(to) => (
                    RunView { from: path, to, link: target, stage: Stage::CheckLink, ..s },
                    ActionView::QueryExists(to),
                ),
                None => go(s, Stage::Halted, ActionView::Halt),
            }
        },
        EventView::Unreadable => go(s, Stage::NextEntry, ActionView::NextEntry),
        EventView::WalkEnd => go(s, Stage::Finished, ActionView::Finish(true)),
        _ => go(s, Stage::Halted, ActionView::Halt),
    }
}

/// The step of a run: its next state and action, given its state and the
/// answer to its last action.
pub open spec fn next(s: RunView, e: EventView) -> (RunView, ActionView) {
    match s.stage {
        Stage::ResolveSource => match e {
            EventView::Resolved(p) => (
                RunView { abs_source: p, stage: Stage::CheckDestination, ..s },
                ActionView::QueryIsDir(s.destination),
            ),
            _ => go(s, Stage::Halted, ActionView::Halt),
        },
        Stage::CheckDestination => match e {
            EventView::IsDir(is_dir) => if is_dir {
                go(s, Stage::ResolveDestination, ActionView::Resolve(s.destination))
            } else {
                go(s, Stage::CreateDestination, ActionView::CreateRoot(s.destination))
            },
            _ => go(s, Stage::Halted, ActionView::Halt),
        },
        Stage::CreateDestination => after_operation(
            s,
            e,
            Stage::ResolveDestination,
            ActionView::Resolve(s.destination),
        ),
        Stage::ResolveDestination => match e {
            EventView::Resolved(p) => (
                RunView { abs_dest: p, stage: Stage::NextEntry, ..s },
                ActionView::StartWalk(s.abs_source),
            ),
            _ => go(s, Stage::Halted, ActionView::Halt),
        },
        Stage::NextEntry => on_walk(s, e),
        Stage::CheckTarget => match e {
            EventView::Target(kind) => on_target(s, kind),
            _ => go(s, Stage::Halted, ActionView::Halt),
        },
        Stage::CompareTimes => match e {
            EventView::Modified { source, target } => if source >= target {
                copy(s)
            } else {
                go(s, Stage::NextEntry, ActionView::NextEntry)
            },
            _ => go(s, Stage::Halted, ActionView::Halt),
        },
        Stage::CheckLink => match e {
            EventView::Exists(exists) => if !exists {
                go(s, Stage::MakeLink, ActionView::CreateLink { target: s.link, at: s.to })
            } else if s.overwrite {
                go(s, Stage::MakeLink, ActionView::ReplaceLink { target: s.link, at: s.to })
            } else {
                go(s, Stage::NextEntry, ActionView::NextEntry)
            },
            _ => go(s, Stage::Halted, ActionView::Halt),
        },
        Stage::CopyFile => after_operation(s, e, Stage::NextEntry, ActionView::NextEntry),
        Stage::MakeDir => after_operation(s, e, Stage::NextEntry, ActionView::NextEntry),
        Stage::MakeLink => after_operation(s, e, Stage::NextEntry, ActionView::NextEntry),
        Stage::Finished => (s, ActionView::Finish(true)),
        Stage::Failed => (s, ActionView::Finish(false)),
        Stage::Halted => (s, ActionView::Halt),
    }
}

/// A copy in progress: the decisions of a recursive directory copy, one
/// answer at a time. The driver performs each action and hands back its
/// answer.
pub struct CopyRun {
    overwrite: bool,
    overwrite_only_newer: bool,
    destination: String,
    abs_source: Vec<Vec<u8>>,
    abs_dest: Vec<Vec<u8>>,
    from: Vec<Vec<u8>>,
    to: Vec<Vec<u8>>,
    link: Vec<u8>,
    stage: Stage,
}

impl View for CopyRun {
    type V = RunView;

    closed spec fn view(&self) -> RunView {
        RunView {
            overwrite: self.overwrite,
            overwrite_only_newer: self.overwrite_only_newer,
            destination: self.destination@,
            abs_source: self.abs_source.deep_view(),
            abs_dest: self.abs_dest.deep_view(),
            from: self.from.deep_view(),
            to: self.to.deep_view(),
            link: self.link@,
            stage: self.stage,
        }
    }
}

impl CopyRun {
    /// A run of the copy that `config` describes, with its first action:
    /// resolve the source directory.
    pub fn new(config: &DirCopy) -> (r: (CopyRun, Action))
        ensures
            r.0@ == initial(*config),
            r.1@ == ActionView::Resolve(config.source@),
    {
        let run = CopyRun {
            overwrite: config.overwrite,
            overwrite_only_newer: config.overwrite_only_newer,
            destination: config.destination.clone(),
            abs_source: Vec::new(),
            abs_dest: Vec::new(),
            from: Vec::new(),
            to: Vec::new(),
            link: Vec::new(),
            stage: Stage::ResolveSource,
        };
        assert(run@ =~= initial(*config)) by {
            assert(run.abs_source.deep_view() =~= Seq::<Seq<u8>>::empty());
            assert(run.abs_dest.deep_view() =~= Seq::<Seq<u8>>::empty());
            assert(run.from.deep_view() =~= Seq::<Seq<u8>>::empty());
            assert(run.to.deep_view() =~= Seq::<Seq<u8>>::empty());
        }
        (run, Action::Resolve(config.source.clone()))
    }

    /// Which answer the run waits for.
    pub fn stage(&self) -> (r: Stage)
        ensures
            r == self@.stage,
    {
        self.stage
    }

    fn set_stage(&mut self, stage: Stage, action: Action) -> (a: Action)
        ensures
            final(self)@ == (RunView { stage, ..old(self)@ }),
            a == action,
    {
        self.stage = stage;
        action
    }

    fn copy(&mut self) -> (a: Action)
        ensures
            (final(self)@, a@) == copy(old(self)@),
    {
        let from = copy_components(&self.from);
        let to = copy_components(&self.to);
        self.set_stage(Stage::CopyFile, Action::CopyFile { from, to })
    }

    fn on_entry(&mut self, kind: EntryKind) -> (a: Action)
        ensures
            (final(self)@, a@) == on_entry(old(self)@, kind),
    {
        match kind {
            EntryKind::File => {
                if self.overwrite && !self.overwrite_only_newer {
                    self.copy()
                } else {
                    let to = copy_components(&self.to);
                    self.set_stage(Stage::CheckTarget, Action::QueryTarget(to))
                }
            },
            EntryKind::Dir => {
                let to = copy_components(&self.to);
                self.set_stage(Stage::MakeDir, Action::CreateDir(to))
            },
            EntryKind::Other => self.set_stage(Stage::NextEntry, Action::NextEntry),
        }
    }

    fn after_operation(&mut self, e: &Event, next_stage: Stage, next_action: Action) -> (a: Action)
        ensures
            (final(self)@, a@) == after_operation(old(self)@, e@, next_stage, next_action@),
    {
        match e {
            Event::Succeeded => self.set_stage(next_stage, next_action),
            Event::Failed => self.set_stage(Stage::Failed, Action::Finish(false)),
            _ => self.set_stage(Stage::Halted, Action::Halt),
        }
    }

    fn inside_destination(&self, path: &Vec<Vec<u8>>) -> (r: bool)
        ensures
            r == inside_destination(self@, path.deep_view()),
    {
        strip_components(&self.abs_dest, &self.abs_source).is_some() && strip_components(
            path,
            &self.abs_dest,
        ).is_some()
    }

    fn on_walk(&mut self, event: Event) -> (a: Action)
        ensures
            (final(self)@, a@) == on_walk(old(self)@, event@),
    {
        match event {
            Event::Entry { path, kind } => {
                if self.inside_destination(&path) {
                    return self.set_stage(Stage::NextEntry, Action::NextEntry);
                }
                match strip_components(&path, &self.abs_source) {
                    Some(rel) => {
                        let to = append_components(&self.abs_dest, &rel);
                        self.from = path;
                        self.to = to;
                        self.on_entry(kind)
                    },
                    None => self.set_stage(Stage::Halted, Action::Halt),
                }
            },
            Event::Link { path, target } => {
                if self.inside_destination(&path) {
                    return self.set_stage(Stage::NextEntry, Action::NextEntry);
                }
                match strip_components(&path, &self.abs_source) {
                    Some(rel) => {
                        let to = append_components(&self.abs_dest, &rel);
                        let query = copy_components(&to);
                        self.from = path;
                        self.to = to;
                        self.link = target;
                        self.set_stage(Stage::CheckLink, Action::QueryExists(query))
                    },
                    None => self.set_stage(Stage::Halted, Action::Halt),
                }
            },
            Event::Unreadable => self.set_stage(Stage::NextEntry, Action::NextEntry),
            Event::WalkEnd => self.set_stage(Stage::Finished, Action::Finish(true)),
            _ => self.set_stage(Stage::Halted, Action::Halt),
        }
    }

    /// Takes the answer to the last action and returns the next action.
    pub fn step(&mut self, event: Event) -> (a: Action)
        ensures
            (final(self)@, a@) == next(old(self)@, event@),
    {
        match self.stage {
            Stage::ResolveSource => match event {
                Event::Resolved(p) => {
                    self.abs_source = p;
                    let d = self.destination.clone();
                    self.set_stage(Stage::CheckDestination, Action::QueryIsDir(d))
                },
                _ => self.set_stage(Stage::Halted, Action::Halt),
            },
            Stage::CheckDestination => match event {
                Event::IsDir(is_dir) => {
                    let d = self.destination.clone();
                    if is_dir {
                        self.set_stage(Stage::ResolveDestination, Action::Resolve(d))
                    } else {
                        self.set_stage(Stage::CreateDestination, Action::CreateRoot(d))
                    }
                },
                _ => self.set_stage(Stage::Halted, Action::Halt),
            },
            Stage::CreateDestination => {
                let d = self.destination.clone();
                self.after_operation(&event, Stage::ResolveDestination, Action::Resolve(d))
            },
            Stage::ResolveDestination => match event {
                Event::Resolved(p) => {
                    self.abs_dest = p;
                    let s = copy_components(&self.abs_source);
                    self.set_stage(Stage::NextEntry, Action::StartWalk(s))
                },
                _ => self.set_stage(Stage::Halted, Action::Halt),
            },
            Stage::NextEntry => self.on_walk(event),
            Stage::CheckTarget => match event {
                Event::Target(kind) => {
                    if kind == TargetKind::Missing {
                        self.copy()
                    } else if kind == TargetKind::File && !self.overwrite {
                        self.set_stage(Stage::NextEntry, Action::NextEntry)
                    } else if self.overwrite_only_newer {
                        let from = copy_components(&self.from);
                        let to = copy_components(&self.to);
                        self.set_stage(
                            Stage::CompareTimes,
                            Action::QueryModified { source: from, target: to },
                        )
                    } else {
                        self.copy()
                    }
                },
                _ => self.set_stage(Stage::Halted, Action::Halt),
            },
            Stage::CompareTimes => match event {
                Event::Modified { source, target } => {
                    if source >= target {
                        self.copy()
                    } else {
                        self.set_stage(Stage::NextEntry, Action::NextEntry)
                    }
                },
                _ => self.set_stage(Stage::Halted, Action::Halt),
            },
            Stage::CheckLink => match event {
                Event::Exists(exists) => {
                    let target = copy_bytes(&self.link);
                    let at = copy_components(&self.to);
                    if !exists {
                        self.set_stage(Stage::MakeLink, Action::CreateLink { target, at })
                    } else if self.overwrite {
                        self.set_stage(Stage::MakeLink, Action::ReplaceLink { target, at })
                    } else {
                        self.set_stage(Stage::NextEntry, Action::NextEntry)
                    }
                },
                _ => self.set_stage(Stage::Halted, Action::Halt),
            },
            Stage::CopyFile => self.after_operation(&event, Stage::NextEntry, Action::NextEntry),
            Stage::MakeDir => self.after_operation(&event, Stage::NextEntry, Action::NextEntry),
            Stage::MakeLink => self.after_operation(&event, Stage::NextEntry, Action::NextEntry),
            Stage::Finished => Action::Finish(true),
            Stage::Failed => Action::Finish(false),
            Stage::Halted => Action::Halt,
        }
    }
}

} // verus!
