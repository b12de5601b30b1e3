use vstd::prelude::*;

use crate::paths::{PathView, relative_to};
use crate::config::DirCopy;
use crate::run::{
    ActionView, EntryKind, EventView, RunView, Stage, TargetKind, initial, next,
    target_of,
};

verus! {

/// The stages in which a run handles one entry of the source tree.
pub open spec fn handles_entry(stage: Stage) -> bool {
    stage == Stage::CheckTarget || stage == Stage::CompareTimes || stage == Stage::CopyFile
        || stage == Stage::MakeDir || stage == Stage::CheckLink || stage == Stage::MakeLink
}

/// The run is well formed: while it handles an entry, the entry lies under
/// the source directory and its target is the same relative place under the
/// destination directory; it looks at the target of a file only when not
/// overwriting it regardless, and compares times only when overwriting with
/// only newer files.
pub open spec fn well_formed(s: RunView) -> bool {
    &&& handles_entry(s.stage) ==> target_of(s.from, s.abs_source, s.abs_dest) == Some(s.to)
    &&& s.stage == Stage::CheckTarget ==> !s.overwrite || s.overwrite_only_newer
    &&& s.stage == Stage::CompareTimes ==> s.overwrite_only_newer
}

/// A run starts well formed.
pub proof fn runs_start_well_formed(config: DirCopy)
    ensures
        well_formed(initial(config)),
{
}

/// Whether a stage is one in which the run is over: it will do nothing else.
pub open spec fn is_final(stage: Stage) -> bool {
    stage == Stage::Finished || stage == Stage::Failed || stage == Stage::Halted
}

/// Stripping a base from the base followed by some components gives those
/// components back.
pub proof fn strip_undoes_append(base: PathView, rel: PathView)
    ensures
        relative_to(base + rel, base) == Some(rel),
{
    assert((base + rel).take(base.len() as int) =~= base);
    assert((base + rel).skip(base.len() as int) =~= rel);
}

/// The target of an entry lies under the destination directory, at the
/// place the entry has under the source directory.
pub proof fn targets_keep_relative_place(path: PathView, abs_source: PathView, abs_dest: PathView)
    requires
        target_of(path, abs_source, abs_dest) is Some,
    ensures
        relative_to(target_of(path, abs_source, abs_dest).unwrap(), abs_dest) == relative_to(
            path,
            abs_source,
        ),
{
    strip_undoes_append(abs_dest, relative_to(path, abs_source).unwrap());
}

/// A step keeps the configuration of the run: both flags and the
/// destination stay as they were.
pub proof fn configuration_is_kept(s: RunView, e: EventView)
    ensures
        next(s, e).0.overwrite == s.overwrite,
        next(s, e).0.overwrite_only_newer == s.overwrite_only_newer,
        next(s, e).0.destination == s.destination,
{
}

/// Every step keeps a run well formed.
pub proof fn steps_keep_well_formed(s: RunView, e: EventView)
    requires
        well_formed(s),
    ensures
        well_formed(next(s, e).0),
{
}

/// Every file copy and every directory creation of a well formed run goes to
/// the place under the destination directory that mirrors the place of the
/// entry under the source directory.
pub proof fn targets_mirror_the_source(s: RunView, e: EventView)
    requires
        well_formed(s),
    ensures
        next(s, e).1 matches ActionView::CopyFile { from, to } ==> target_of(
            from,
            next(s, e).0.abs_source,
            next(s, e).0.abs_dest,
        ) == Some(to),
        next(s, e).1 matches ActionView::CreateDir(to) ==> target_of(
            next(s, e).0.from,
            next(s, e).0.abs_source,
            next(s, e).0.abs_dest,
        ) == Some(to),
        next(s, e).1 matches ActionView::CreateLink { at, .. } ==> target_of(
            next(s, e).0.from,
            next(s, e).0.abs_source,
            next(s, e).0.abs_dest,
        ) == Some(at),
        next(s, e).1 matches ActionView::ReplaceLink { at, .. } ==> target_of(
            next(s, e).0.from,
            next(s, e).0.abs_source,
            next(s, e).0.abs_dest,
        ) == Some(at),
{
}

/// A file is copied only when overwriting regardless of times, when its
/// target is missing, when its target is no file and times do not matter,
/// or, when only newer files replace targets, when it is at least as new as
/// its target.
pub proof fn copies_respect_the_flags(s: RunView, e: EventView)
    requires
        well_formed(s),
        next(s, e).1 is CopyFile,
    ensures
        ({
            ||| s.stage == Stage::NextEntry && s.overwrite && !s.overwrite_only_newer && e is Entry
                && e->kind == EntryKind::File
            ||| s.stage == Stage::CheckTarget && e == EventView::Target(TargetKind::Missing)
            ||| s.stage == Stage::CheckTarget && !s.overwrite_only_newer && e == EventView::Target(
                TargetKind::Other,
            )
            ||| s.stage == Stage::CompareTimes && s.overwrite_only_newer && e is Modified
                && e->Modified_source >= e->Modified_target
        }),
{
}

/// A file whose target is missing is copied, whatever the flags.
pub proof fn missing_targets_are_copied(s: RunView)
    requires
        s.stage == Stage::CheckTarget,
    ensures
        next(s, EventView::Target(TargetKind::Missing)).1 == (ActionView::CopyFile {
            from: s.from,
            to: s.to,
        }),
{
}

/// Without overwriting, a file whose target already is a file is left alone:
/// the run goes on with the next entry.
pub proof fn existing_files_are_kept(s: RunView)
    requires
        !s.overwrite,
        s.stage == Stage::CheckTarget,
    ensures
        next(s, EventView::Target(TargetKind::File)) == (RunView { stage: Stage::NextEntry, ..s }, ActionView::NextEntry),
{
}

/// When only newer files replace targets, an existing target that is not
/// kept outright leads to a comparison of times: a file when overwriting,
/// anything else that is not a file in any case.
pub proof fn existing_targets_are_compared(s: RunView, kind: TargetKind)
    requires
        s.overwrite_only_newer,
        s.stage == Stage::CheckTarget,
        kind == TargetKind::Other || (kind == TargetKind::File && s.overwrite),
    ensures
        next(s, EventView::Target(kind)).1 == (ActionView::QueryModified { source: s.from, target: s.to }),
{
}

/// When only newer files replace targets, a file is copied exactly when its
/// modification time is not before that of its target.
pub proof fn only_newer_files_replace(s: RunView, source: i128, target: i128)
    requires
        s.stage == Stage::CompareTimes,
    ensures
        next(s, EventView::Modified { source, target }).1 is CopyFile <==> source >= target,
        next(s, EventView::Modified { source, target }).1 is CopyFile || next(
            s,
            EventView::Modified { source, target },
        ).1 is NextEntry,
{
}

/// Every directory of the source tree is created at its mirrored place.
pub proof fn directories_are_created(s: RunView, path: PathView, rel: PathView)
    requires
        s.stage == Stage::NextEntry,
        relative_to(path, s.abs_dest) is None || relative_to(s.abs_dest, s.abs_source) is None,
        relative_to(path, s.abs_source) == Some(rel),
    ensures
        next(s, EventView::Entry { path, kind: EntryKind::Dir }).1 == ActionView::CreateDir(
            s.abs_dest + rel,
        ),
{
}

/// The source directory itself is mirrored by the destination directory.
pub proof fn source_root_maps_to_destination_root(s: RunView)
    requires
        s.stage == Stage::NextEntry,
        relative_to(s.abs_source, s.abs_dest) is None || relative_to(s.abs_dest, s.abs_source)
            is None,
    ensures
        next(s, EventView::Entry { path: s.abs_source, kind: EntryKind::Dir }).1
            == ActionView::CreateDir(s.abs_dest),
{
    assert(s.abs_source.take(s.abs_source.len() as int) =~= s.abs_source);
    assert(s.abs_dest + s.abs_source.skip(s.abs_source.len() as int) =~= s.abs_dest);
}

/// Entries that are neither files nor directories are passed over.
pub proof fn other_entries_are_passed_over(s: RunView, path: PathView)
    requires
        s.stage == Stage::NextEntry,
        relative_to(path, s.abs_dest) is None || relative_to(s.abs_dest, s.abs_source) is None,
        relative_to(path, s.abs_source) is Some,
    ensures
        next(s, EventView::Entry { path, kind: EntryKind::Other }).1 == ActionView::NextEntry,
        next(s, EventView::Entry { path, kind: EntryKind::Other }).0.stage == Stage::NextEntry,
{
}

/// A failed operation ends the copy with its error.
pub proof fn failures_end_the_copy(s: RunView)
    requires
        s.stage == Stage::CreateDestination || s.stage == Stage::CopyFile || s.stage
            == Stage::MakeDir || s.stage == Stage::MakeLink,
    ensures
        next(s, EventView::Failed) == (RunView { stage: Stage::Failed, ..s }, ActionView::Finish(false)),
{
}

/// Once over, a run stays over: it neither changes nor asks for anything new.
pub proof fn final_stages_are_kept(s: RunView, e: EventView)
    requires
        is_final(s.stage),
    ensures
        next(s, e).0 == s,
        next(s, e).1 == next(s, EventView::WalkEnd).1,
        next(s, e).1 is Finish || next(s, e).1 is Halt,
{
}

/// The end of the walk ends the copy successfully.
pub proof fn walk_end_succeeds(s: RunView)
    requires
        s.stage == Stage::NextEntry,
    ensures
        next(s, EventView::WalkEnd).1 == ActionView::Finish(true),
{
}

/// A missing destination directory is created before it is resolved; an
/// existing one is resolved at once.
pub proof fn destination_is_created_when_missing(s: RunView, is_dir: bool)
    requires
        s.stage == Stage::CheckDestination,
    ensures
        is_dir ==> next(s, EventView::IsDir(is_dir)).1 == ActionView::Resolve(s.destination),
        !is_dir ==> next(s, EventView::IsDir(is_dir)).1 == ActionView::CreateRoot(s.destination),
        !is_dir ==> next(next(s, EventView::IsDir(is_dir)).0, EventView::Succeeded).1
            == ActionView::Resolve(s.destination),
{
}

} // verus!

verus! {

/// Symbolic links are recreated as links to the same target at their
/// mirrored place; an existing path there is replaced only when
/// overwriting.
pub proof fn links_are_recreated(s: RunView, path: PathView, target: Seq<u8>, exists: bool)
    requires
        s.stage == Stage::NextEntry,
        relative_to(path, s.abs_dest) is None || relative_to(s.abs_dest, s.abs_source) is None,
        relative_to(path, s.abs_source) is Some,
    ensures
        ({
            let (s1, a1) = next(s, EventView::Link { path, target });
            let to = target_of(path, s.abs_source, s.abs_dest).unwrap();
            &&& a1 == ActionView::QueryExists(to)
            &&& !exists ==> next(s1, EventView::Exists(false)).1 == ActionView::CreateLink {
                target,
                at: to,
            }
            &&& exists && s.overwrite ==> next(s1, EventView::Exists(true)).1
                == ActionView::ReplaceLink { target, at: to }
            &&& exists && !s.overwrite ==> next(s1, EventView::Exists(true)).1
                == ActionView::NextEntry
        }),
{
}

/// When the destination lies inside the source, the destination and all
/// that lies under it are passed over by the walk.
pub proof fn destination_inside_source_is_passed_over(s: RunView, e: EventView)
    requires
        s.stage == Stage::NextEntry,
        relative_to(s.abs_dest, s.abs_source) is Some,
        (e is Entry && relative_to(e->Entry_path, s.abs_dest) is Some) || (e is Link && relative_to(
            e->Link_path,
            s.abs_dest,
        ) is Some),
    ensures
        next(s, e) == (s, ActionView::NextEntry),
{
}

/// Entries that the walk cannot read are passed over.
pub proof fn unreadable_entries_are_passed_over(s: RunView)
    requires
        s.stage == Stage::NextEntry,
    ensures
        next(s, EventView::Unreadable) == (s, ActionView::NextEntry),
{
}

} // verus!

verus! {

/// What follows a base is exactly what makes the path: `relative_to(p,
/// base)` is `Some(r)` just when `p` is `base` followed by `r`.
pub proof fn relative_to_is_what_follows(p: PathView, base: PathView, r: PathView)
    ensures
        relative_to(p, base) == Some(r) <==> p == base + r,
{
    if relative_to(p, base) == Some(r) {
        assert(p =~= p.take(base.len() as int) + p.skip(base.len() as int));
    }
    if p == base + r {
        assert(p.take(base.len() as int) =~= base);
        assert(p.skip(base.len() as int) =~= r);
    }
}

/// A path that does not begin with a base has nothing following it.
pub proof fn relative_to_fails_off_the_base(p: PathView, base: PathView)
    requires
        relative_to(p, base) is None,
    ensures
        forall|r: PathView| p != base + r,
{
    assert forall|r: PathView| p != base + r by {
        relative_to_is_what_follows(p, base, r);
        if p == base + r {
            assert(relative_to(p, base) == Some(r));
        }
    }
}

/// A run starts from its configuration: the configured flags and
/// destination, nothing resolved yet, waiting for the source.
pub proof fn runs_start_from_the_configuration(config: DirCopy)
    ensures
        initial(config).overwrite == config.overwrite,
        initial(config).overwrite_only_newer == config.overwrite_only_newer,
        initial(config).destination == config.destination@,
        initial(config).stage == Stage::ResolveSource,
        initial(config).abs_source.len() == 0,
        initial(config).abs_dest.len() == 0,
{
}

/// The resolved source is the directory that is walked, and the resolved
/// destination the one that receives the copy, whether the destination
/// existed or had to be created.
pub proof fn resolved_directories_are_used(s: RunView, p: PathView, q: PathView, existed: bool)
    requires
        s.stage == Stage::ResolveSource,
    ensures
        next(s, EventView::Resolved(p)) == (
        RunView { abs_source: p, stage: Stage::CheckDestination, ..s },
        ActionView::QueryIsDir(s.destination),
        ),
        ({
            let s1 = next(s, EventView::Resolved(p)).0;
            let s2 = if existed {
                next(s1, EventView::IsDir(true)).0
            } else {
                next(next(s1, EventView::IsDir(false)).0, EventView::Succeeded).0
            };
            &&& s2 == (RunView { abs_source: p, stage: Stage::ResolveDestination, ..s })
            &&& next(s2, EventView::Resolved(q)) == (
            RunView { abs_source: p, abs_dest: q, stage: Stage::NextEntry, ..s },
            ActionView::StartWalk(p),
            )
        }),
{
}

/// A missing destination is created; once created it is resolved and the
/// source is walked; a failed creation ends the copy with its error.
pub proof fn missing_destination_is_created_then_walked_into(s: RunView, q: PathView)
    requires
        s.stage == Stage::CheckDestination,
    ensures
        next(s, EventView::IsDir(false)) == (
        RunView { stage: Stage::CreateDestination, ..s },
        ActionView::CreateRoot(s.destination),
        ),
        next(next(s, EventView::IsDir(false)).0, EventView::Succeeded) == (
        RunView { stage: Stage::ResolveDestination, ..s },
        ActionView::Resolve(s.destination),
        ),
        next(
            next(next(s, EventView::IsDir(false)).0, EventView::Succeeded).0,
            EventView::Resolved(q),
        ) == (RunView { abs_dest: q, stage: Stage::NextEntry, ..s }, ActionView::StartWalk(
            s.abs_source,
        )),
        next(next(s, EventView::IsDir(false)).0, EventView::Failed) == (
        RunView { stage: Stage::Failed, ..s },
        ActionView::Finish(false),
        ),
        next(s, EventView::IsDir(true)) == (
        RunView { stage: Stage::ResolveDestination, ..s },
        ActionView::Resolve(s.destination),
        ),
{
}

/// A successful copy of a file, creation of a directory or making of a link
/// returns the run to waiting for the next entry, whatever the flags; the
/// walk goes on to its end.
pub proof fn successful_operations_continue_the_walk(s: RunView)
    requires
        s.stage == Stage::CopyFile || s.stage == Stage::MakeDir || s.stage == Stage::MakeLink,
    ensures
        next(s, EventView::Succeeded) == (
        RunView { stage: Stage::NextEntry, ..s },
        ActionView::NextEntry,
        ),
{
}

/// An entry under the source that does not lie under a destination inside
/// the source is handled at the place `abs_dest + rel`, where `rel` is its
/// place under the source: a file is copied at once when overwriting
/// regardless of times, else its target is looked at; a directory is
/// created; a link is recreated after looking at its target; anything else
/// is passed over.
pub proof fn entries_outside_the_destination_are_handled(
    s: RunView,
    path: PathView,
    rel: PathView,
    link: Seq<u8>,
)
    requires
        s.stage == Stage::NextEntry,
        relative_to(path, s.abs_source) == Some(rel),
        relative_to(path, s.abs_dest) is None || relative_to(s.abs_dest, s.abs_source) is None,
    ensures
        ({
            let to = s.abs_dest + rel;
            let h = RunView { from: path, to, ..s };
            &&& next(s, EventView::Entry { path, kind: EntryKind::File }) == if s.overwrite
                && !s.overwrite_only_newer {
                (RunView { stage: Stage::CopyFile, ..h }, ActionView::CopyFile { from: path, to })
            } else {
                (RunView { stage: Stage::CheckTarget, ..h }, ActionView::QueryTarget(to))
            }
            &&& next(s, EventView::Entry { path, kind: EntryKind::Dir }) == (
            RunView { stage: Stage::MakeDir, ..h },
            ActionView::CreateDir(to),
            )
            &&& next(s, EventView::Entry { path, kind: EntryKind::Other }) == (
            RunView { stage: Stage::NextEntry, ..h },
            ActionView::NextEntry,
            )
            &&& next(s, EventView::Link { path, target: link }) == (
            RunView { link, stage: Stage::CheckLink, ..h },
            ActionView::QueryExists(to),
            )
        }),
{
}

/// An entry that does not lie under the source halts the run.
pub proof fn entries_outside_the_source_halt(s: RunView, path: PathView, kind: EntryKind)
    requires
        s.stage == Stage::NextEntry,
        relative_to(path, s.abs_source) is None,
    ensures
        next(s, EventView::Entry { path, kind }) == (
        RunView { stage: Stage::Halted, ..s },
        ActionView::Halt,
        ),
{
    if relative_to(path, s.abs_dest) is Some && relative_to(s.abs_dest, s.abs_source) is Some {
        let r1 = relative_to(path, s.abs_dest).unwrap();
        let r2 = relative_to(s.abs_dest, s.abs_source).unwrap();
        relative_to_is_what_follows(path, s.abs_dest, r1);
        relative_to_is_what_follows(s.abs_dest, s.abs_source, r2);
        assert(path =~= s.abs_source + (r2 + r1));
        relative_to_is_what_follows(path, s.abs_source, r2 + r1);
    }
}

/// The walk ends the copy successfully; an unreadable entry is passed over
/// with the run unchanged.
pub proof fn walk_end_and_unreadable_entries(s: RunView)
    requires
        s.stage == Stage::NextEntry,
    ensures
        next(s, EventView::WalkEnd) == (RunView { stage: Stage::Finished, ..s }, ActionView::Finish(true)),
        next(s, EventView::Unreadable) == (s, ActionView::NextEntry),
{
}

/// What is done with a file once its target has been looked at.
pub proof fn targets_decide_the_copy(s: RunView, kind: TargetKind)
    requires
        s.stage == Stage::CheckTarget,
    ensures
        ({
            let copy = (RunView { stage: Stage::CopyFile, ..s }, ActionView::CopyFile {
                from: s.from,
                to: s.to,
            });
            let compare = (RunView { stage: Stage::CompareTimes, ..s }, ActionView::QueryModified {
                source: s.from,
                target: s.to,
            });
            let keep = (RunView { stage: Stage::NextEntry, ..s }, ActionView::NextEntry);
            &&& kind == TargetKind::Missing ==> next(s, EventView::Target(kind)) == copy
            &&& kind == TargetKind::File && !s.overwrite ==> next(s, EventView::Target(kind))
                == keep
            &&& kind != TargetKind::Missing && !(kind == TargetKind::File && !s.overwrite)
                && s.overwrite_only_newer ==> next(s, EventView::Target(kind)) == compare
            &&& kind != TargetKind::Missing && !(kind == TargetKind::File && !s.overwrite)
                && !s.overwrite_only_newer ==> next(s, EventView::Target(kind)) == copy
        }),
{
}

/// Times decide: a source at least as new as its target is copied, an
/// older one is left alone.
pub proof fn times_decide_the_copy(s: RunView, source: i128, target: i128)
    requires
        s.stage == Stage::CompareTimes,
    ensures
        source >= target ==> next(s, EventView::Modified { source, target }) == (
        RunView { stage: Stage::CopyFile, ..s },
        ActionView::CopyFile { from: s.from, to: s.to },
        ),
        source < target ==> next(s, EventView::Modified { source, target }) == (
        RunView { stage: Stage::NextEntry, ..s },
        ActionView::NextEntry,
        ),
{
}

/// What is done with a link once its target has been looked at: made where
/// nothing is, made in place of what is there when overwriting, else left.
pub proof fn existence_decides_the_link(s: RunView, exists: bool)
    requires
        s.stage == Stage::CheckLink,
    ensures
        !exists ==> next(s, EventView::Exists(exists)) == (
        RunView { stage: Stage::MakeLink, ..s },
        ActionView::CreateLink { target: s.link, at: s.to },
        ),
        exists && s.overwrite ==> next(s, EventView::Exists(exists)) == (
        RunView { stage: Stage::MakeLink, ..s },
        ActionView::ReplaceLink { target: s.link, at: s.to },
        ),
        exists && !s.overwrite ==> next(s, EventView::Exists(exists)) == (
        RunView { stage: Stage::NextEntry, ..s },
        ActionView::NextEntry,
        ),
{
}

/// A link that does not lie under the source halts the run too.
pub proof fn links_outside_the_source_halt(s: RunView, path: PathView, link: Seq<u8>)
    requires
        s.stage == Stage::NextEntry,
        relative_to(path, s.abs_source) is None,
    ensures
        next(s, EventView::Link { path, target: link }) == (
        RunView { stage: Stage::Halted, ..s },
        ActionView::Halt,
        ),
{
    entries_outside_the_source_halt(s, path, EntryKind::Other);
}

/// Whether `e` is an answer of the kind that a run in `stage` waits for.
pub open spec fn fits(stage: Stage, e: EventView) -> bool {
    match stage {
        Stage::ResolveSource | Stage::ResolveDestination => e is Resolved,
        Stage::CheckDestination => e is IsDir,
        Stage::CreateDestination | Stage::CopyFile | Stage::MakeDir | Stage::MakeLink => e
            is Succeeded || e is Failed,
        Stage::NextEntry => e is Entry || e is Link || e is Unreadable || e is WalkEnd,
        Stage::CheckTarget => e is Target,
        Stage::CompareTimes => e is Modified,
        Stage::CheckLink => e is Exists,
        Stage::Finished | Stage::Failed | Stage::Halted => true,
    }
}

/// An answer of another kind than the one the run waits for halts it.
pub proof fn unfit_answers_halt(s: RunView, e: EventView)
    requires
        !fits(s.stage, e),
    ensures
        next(s, e) == (RunView { stage: Stage::Halted, ..s }, ActionView::Halt),
{
}

/// A run that is over says how it ended, and keeps saying it: success after
/// the end of the walk, failure after a failed operation, a halt after an
/// unfit answer.
pub proof fn ended_runs_report_their_end(s: RunView, e: EventView)
    ensures
        s.stage == Stage::Finished ==> next(s, e) == (s, ActionView::Finish(true)),
        s.stage == Stage::Failed ==> next(s, e) == (s, ActionView::Finish(false)),
        s.stage == Stage::Halted ==> next(s, e) == (s, ActionView::Halt),
{
}

} // verus!
