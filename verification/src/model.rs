use vstd::prelude::*;

use crate::paths::{PathView, relative_to};
use crate::run::{
    ActionView, EntryKind, EventView, RunView, TargetKind, inside_destination, next, target_of,
};

verus! {

/// What the file system holds at a path, in the model of a copy. The model
/// does not follow symbolic links: a link at the target of a file counts as
/// something that is not a file, has no time, and cannot be copied onto,
/// where the file system would look at what the link points to.
pub enum Node {
    Dir { mtime: i128 },
    File { data: Seq<u8>, mtime: i128 },
    /// A symbolic link, not followed.
    Link(Seq<u8>),
}

/// A file system: what is held at each path.
pub type Fs = Map<PathView, Node>;

/// The answer of the walk for `path`, as the file system shows it.
pub open spec fn walk_event(fs: Fs, path: PathView) -> EventView {
    if fs.contains_key(path) {
        match fs[path] {
            Node::Dir { .. } => EventView::Entry { path, kind: EntryKind::Dir },
            Node::File { .. } => EventView::Entry { path, kind: EntryKind::File },
            Node::Link(target) => EventView::Link { path, target },
        }
    } else {
        EventView::Unreadable
    }
}

/// Whether `fs` holds a file at `p`.
pub open spec fn is_file(fs: Fs, p: PathView) -> bool {
    fs.contains_key(p) && fs[p] is File
}

/// What the target `p` of a file holds.
pub open spec fn target_kind(fs: Fs, p: PathView) -> TargetKind {
    if !fs.contains_key(p) {
        TargetKind::Missing
    } else if fs[p] is File {
        TargetKind::File
    } else {
        TargetKind::Other
    }
}

/// The modification time of what `fs` holds at `p`, where it has one.
pub open spec fn time_of(fs: Fs, p: PathView) -> Option<i128> {
    if !fs.contains_key(p) {
        None
    } else {
        match fs[p] {
            Node::File { mtime, .. } => Some(mtime),
            Node::Dir { mtime } => Some(mtime),
            Node::Link(_) => None,
        }
    }
}

/// What an action does to the file system, and the answer it gives. What a
/// copy writes and what `CreateDir` creates gets the time `now`; links at
/// targets are not followed.
pub open spec fn perform(fs: Fs, a: ActionView, now: i128) -> (Fs, EventView) {
    match a {
        ActionView::QueryTarget(p) => (fs, EventView::Target(target_kind(fs, p))),
        ActionView::QueryExists(p) => (fs, EventView::Exists(fs.contains_key(p))),
        ActionView::QueryModified { source, target } => if is_file(fs, source) && time_of(
            fs,
            target,
        ) is Some {
            (
                fs,
                EventView::Modified {
                    source: fs[source]->File_mtime,
                    target: time_of(fs, target).unwrap(),
                },
            )
        } else {
            (fs, EventView::Failed)
        },
        ActionView::CopyFile { from, to } => if is_file(fs, from) && (!fs.contains_key(to)
            || is_file(fs, to)) {
            (fs.insert(to, Node::File { data: fs[from]->File_data, mtime: now }), EventView::Succeeded)
        } else {
            (fs, EventView::Failed)
        },
        ActionView::CreateDir(p) => if !fs.contains_key(p) {
            (fs.insert(p, Node::Dir { mtime: now }), EventView::Succeeded)
        } else if fs[p] is Dir {
            (fs, EventView::Succeeded)
        } else {
            (fs, EventView::Failed)
        },
        ActionView::CreateLink { target, at } => if !fs.contains_key(at) {
            (fs.insert(at, Node::Link(target)), EventView::Succeeded)
        } else {
            (fs, EventView::Failed)
        },
        ActionView::ReplaceLink { target, at } => if fs.contains_key(at) && fs[at] is Dir {
            (fs, EventView::Failed)
        } else {
            (fs.insert(at, Node::Link(target)), EventView::Succeeded)
        },
        _ => (fs, EventView::Failed),
    }
}

/// One answered action: unless the run waits for the walk or is over, the
/// action is performed and the run takes the answer.
pub open spec fn answer(s: RunView, fs: Fs, a: ActionView, now: i128) -> (RunView, Fs, ActionView) {
    if a is NextEntry || a is Finish || a is Halt {
        (s, fs, a)
    } else {
        let (fs1, e) = perform(fs, a, now);
        let (s1, a1) = next(s, e);
        (s1, fs1, a1)
    }
}

/// The handling of the entry `path` of the walk by a run that waits for it:
/// at most three actions follow the entry before the run waits again.
pub open spec fn handle(s: RunView, fs: Fs, path: PathView, now: i128) -> (RunView, Fs, ActionView) {
    let (s1, a1) = next(s, walk_event(fs, path));
    let r1 = answer(s1, fs, a1, now);
    let r2 = answer(r1.0, r1.1, r1.2, now);
    answer(r2.0, r2.1, r2.2, now)
}

/// The copy of the walked `entries`, each handled by the run as it waits
/// for the next entry: whether all were handled without failure, and the
/// file system left.
pub open spec fn copy_entries(s: RunView, fs: Fs, entries: Seq<PathView>, now: i128) -> (bool, Fs)
    decreases entries.len(),
{
    if entries.len() == 0 {
        (true, fs)
    } else {
        let r = handle(s, fs, entries[0], now);
        if r.2 is NextEntry {
            copy_entries(s, r.1, entries.drop_first(), now)
        } else {
            (false, r.1)
        }
    }
}

/// Two nodes of the same kind with the same content; times may differ.
pub open spec fn same_content(a: Node, b: Node) -> bool {
    match (a, b) {
        (Node::Dir { .. }, Node::Dir { .. }) => true,
        (Node::File { data: d1, .. }, Node::File { data: d2, .. }) => d1 == d2,
        (Node::Link(l1), Node::Link(l2)) => l1 == l2,
        _ => false,
    }
}

/// Two file systems that hold the same paths with the same content; only
/// the times of files may differ.
pub open spec fn same_but_times(a: Fs, b: Fs) -> bool {
    &&& a.dom() == b.dom()
    &&& forall|k: PathView| #[trigger] a.contains_key(k) ==> same_content(a[k], b[k])
}

/// The entry `p` is handled by the run, not passed over as part of the
/// copy being made.
pub open spec fn handled(s: RunView, p: PathView) -> bool {
    !inside_destination(s, p)
}

/// The walked entries: distinct paths inside the source.
pub open spec fn walked(s: RunView, entries: Seq<PathView>) -> bool {
    &&& entries.no_duplicates()
    &&& forall|i: int| 0 <= i < entries.len() ==> #[trigger] relative_to(entries[i], s.abs_source) is Some
}

/// No handled entry is the target of a handled entry.
pub open spec fn targets_apart(s: RunView, entries: Seq<PathView>) -> bool {
    forall|i: int, j: int|
        0 <= i < entries.len() && 0 <= j < entries.len() && handled(s, entries[i]) && handled(
            s,
            entries[j],
        ) ==> target(s, #[trigger] entries[j]) != #[trigger] entries[i]
}

/// `a` and `b` hold the same at `k`.
pub open spec fn agree(a: Fs, b: Fs, k: PathView) -> bool {
    &&& a.contains_key(k) == b.contains_key(k)
    &&& a.contains_key(k) ==> a[k] == b[k]
}

/// Whether `k` is the target of one of the handled entries.
pub open spec fn hits(s: RunView, entries: Seq<PathView>, k: PathView) -> bool {
    exists|i: int|
        0 <= i < entries.len() && handled(s, entries[i]) && #[trigger] target_of(
            entries[i],
            s.abs_source,
            s.abs_dest,
        ) == Some(k)
}

/// The target of the entry `p`.
pub open spec fn target(s: RunView, p: PathView) -> PathView {
    target_of(p, s.abs_source, s.abs_dest).unwrap()
}

/// The entry `p` is settled: handling it again changes nothing but times.
/// Its target holds a directory for a directory. For a file it holds a
/// file with the same content, unless the flags keep what is there: any
/// file when not overwriting, or, when only newer files replace targets, a
/// file or a directory newer than the source. For a link it holds
/// something, the same link when overwriting.
pub open spec fn settled(s: RunView, fs: Fs, p: PathView) -> bool {
    let t = target(s, p);
    fs.contains_key(p) ==> match fs[p] {
        Node::Dir { .. } => fs.contains_key(t) && fs[t] is Dir,
        Node::File { data, mtime } => fs.contains_key(t) && match fs[t] {
            Node::File { data: d, mtime: m } => !s.overwrite || d == data || (
            s.overwrite_only_newer && mtime < m),
            Node::Dir { mtime: m } => s.overwrite_only_newer && mtime < m,
            Node::Link(_) => false,
        },
        Node::Link(l) => fs.contains_key(t) && (!s.overwrite || fs[t] == Node::Link(l)),
    }
}

/// A missing target of `p` in `before` holds what `p` holds in `after`.
pub open spec fn mirrored(s: RunView, before: Fs, after: Fs, p: PathView) -> bool {
    let t = target(s, p);
    before.contains_key(p) && !before.contains_key(t) ==> after.contains_key(t) && same_content(
        after[t],
        before[p],
    )
}

} // verus!
