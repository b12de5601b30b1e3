use vstd::prelude::*;

use crate::model::{
    Fs, agree, copy_entries, handle, handled, hits, mirrored, same_but_times, same_content, settled,
    target, targets_apart, walked,
};
use crate::paths::{PathView, relative_to};
use crate::run::{RunView, Stage, inside_destination, target_of};

verus! {

/// A path is its base followed by what lies after the base.
pub proof fn relative_rebuilds(p: PathView, base: PathView, r: PathView)
    requires
        relative_to(p, base) == Some(r),
    ensures
        p == base + r,
{
    assert(p =~= p.take(base.len() as int) + p.skip(base.len() as int));
}

/// Of two leading parts of one path, one leads the other.
proof fn leading_parts_nest(p: PathView, a: PathView, b: PathView)
    requires
        relative_to(p, a) is Some,
        relative_to(p, b) is Some,
    ensures
        relative_to(a, b) is Some || relative_to(b, a) is Some,
{
    if b.len() <= a.len() {
        assert(a.take(b.len() as int) =~= p.take(b.len() as int));
    } else {
        assert(b.take(a.len() as int) =~= p.take(a.len() as int));
    }
}

/// A target lies under the destination.
proof fn targets_lie_under_the_destination(s: RunView, q: PathView)
    requires
        relative_to(q, s.abs_source) is Some,
    ensures
        relative_to(target(s, q), s.abs_dest) is Some,
{
    let r = relative_to(q, s.abs_source).unwrap();
    assert((s.abs_dest + r).take(s.abs_dest.len() as int) =~= s.abs_dest);
}

/// Distinct entries have distinct targets.
pub proof fn targets_are_distinct(s: RunView, p: PathView, q: PathView)
    requires
        relative_to(p, s.abs_source) is Some,
        relative_to(q, s.abs_source) is Some,
        p != q,
    ensures
        target(s, p) != target(s, q),
{
    let rp = relative_to(p, s.abs_source).unwrap();
    let rq = relative_to(q, s.abs_source).unwrap();
    relative_rebuilds(p, s.abs_source, rp);
    relative_rebuilds(q, s.abs_source, rq);
    if s.abs_dest + rp == s.abs_dest + rq {
        assert(rp =~= (s.abs_dest + rp).skip(s.abs_dest.len() as int));
        assert(rq =~= (s.abs_dest + rq).skip(s.abs_dest.len() as int));
    }
}

/// When the source does not lie inside the destination, no handled entry is
/// the target of a handled entry: a target that is inside the source lies
/// inside a destination that is inside the source, and what lies there is
/// passed over.
pub proof fn source_outside_destination_keeps_targets_apart(s: RunView, entries: Seq<PathView>)
    requires
        relative_to(s.abs_source, s.abs_dest) is None,
        walked(s, entries),
    ensures
        targets_apart(s, entries),
{
    assert forall|i: int, j: int|
        0 <= i < entries.len() && 0 <= j < entries.len() && handled(s, entries[i]) && handled(
            s,
            entries[j],
        ) implies target(s, #[trigger] entries[j]) != #[trigger] entries[i] by {
        let p = entries[i];
        let q = entries[j];
        assert(relative_to(p, s.abs_source) is Some);
        assert(relative_to(q, s.abs_source) is Some);
        targets_lie_under_the_destination(s, q);
        if target(s, q) == p {
            leading_parts_nest(p, s.abs_source, s.abs_dest);
            assert(inside_destination(s, p));
        }
    }
}

/// When no target of a handled entry lies inside the source, no handled
/// entry is the target of a handled entry.
pub proof fn targets_outside_source_keep_targets_apart(s: RunView, entries: Seq<PathView>)
    requires
        walked(s, entries),
        forall|j: int|
            0 <= j < entries.len() && handled(s, entries[j]) ==> relative_to(
                target(s, #[trigger] entries[j]),
                s.abs_source,
            ) is None,
    ensures
        targets_apart(s, entries),
{
    assert forall|i: int, j: int|
        0 <= i < entries.len() && 0 <= j < entries.len() && handled(s, entries[i]) && handled(
            s,
            entries[j],
        ) implies target(s, #[trigger] entries[j]) != #[trigger] entries[i] by {
        assert(relative_to(entries[i], s.abs_source) is Some);
    }
}

/// A run that waits for the next entry handles it the same whatever entry
/// it handled last: `copy_entries` may hand every entry to the same state.
pub proof fn handling_ignores_the_last_entry(
    s: RunView,
    fs: Fs,
    p: PathView,
    now: i128,
    from: PathView,
    to: PathView,
    link: Seq<u8>,
)
    requires
        s.stage == Stage::NextEntry,
    ensures
        handle((RunView { from, to, link, ..s }), fs, p, now).1 == handle(s, fs, p, now).1,
        handle((RunView { from, to, link, ..s }), fs, p, now).2 == handle(s, fs, p, now).2,
{
}

/// An entry that is passed over changes nothing.
proof fn passing_over_changes_nothing(s: RunView, fs: Fs, p: PathView, now: i128)
    requires
        s.stage == Stage::NextEntry,
        !handled(s, p),
    ensures
        handle(s, fs, p, now).2 is NextEntry,
        handle(s, fs, p, now).1 == fs,
{
}

/// Handling an entry without failure settles it, gives a missing target
/// what the entry holds, and changes nothing but its target.
pub proof fn handling_settles(s: RunView, fs: Fs, p: PathView, now: i128)
    requires
        s.stage == Stage::NextEntry,
        handled(s, p),
        relative_to(p, s.abs_source) is Some,
        target(s, p) != p,
        handle(s, fs, p, now).2 is NextEntry,
    ensures
        settled(s, handle(s, fs, p, now).1, p),
        mirrored(s, fs, handle(s, fs, p, now).1, p),
        forall|k: PathView| k != target(s, p) ==> agree(fs, #[trigger] handle(s, fs, p, now).1, k),
{
}

/// Handling a settled entry succeeds and changes nothing but the time of
/// its target.
pub proof fn settled_entries_stay(s: RunView, fs: Fs, p: PathView, now: i128)
    requires
        s.stage == Stage::NextEntry,
        handled(s, p),
        relative_to(p, s.abs_source) is Some,
        target(s, p) != p,
        settled(s, fs, p),
    ensures
        handle(s, fs, p, now).2 is NextEntry,
        same_but_times(handle(s, fs, p, now).1, fs),
        forall|k: PathView| k != target(s, p) ==> agree(fs, #[trigger] handle(s, fs, p, now).1, k),
{
    let r = handle(s, fs, p, now).1;
    assert(r.dom() =~= fs.dom());
}

/// Whether an entry is settled depends only on the entry and its target.
proof fn settled_is_local(s: RunView, a: Fs, b: Fs, p: PathView)
    requires
        agree(a, b, p),
        agree(a, b, target(s, p)),
        settled(s, a, p),
    ensures
        settled(s, b, p),
{
}

/// The later entries: walked too, and, when the first entry is handled,
/// none of them hits it or its target.
proof fn rest_misses_first(s: RunView, entries: Seq<PathView>)
    requires
        walked(s, entries),
        targets_apart(s, entries),
        entries.len() > 0,
    ensures
        walked(s, entries.drop_first()),
        targets_apart(s, entries.drop_first()),
        relative_to(entries[0], s.abs_source) is Some,
        handled(s, entries[0]) ==> target(s, entries[0]) != entries[0],
        handled(s, entries[0]) ==> !hits(s, entries.drop_first(), entries[0]),
        handled(s, entries[0]) ==> !hits(s, entries.drop_first(), target(s, entries[0])),
        handled(s, entries[0]) ==> forall|i: int|
            0 <= i < entries.len() - 1 && handled(s, entries.drop_first()[i]) ==> target(
                s,
                entries[0],
            ) != #[trigger] entries.drop_first()[i],
{
    let p = entries[0];
    let rest = entries.drop_first();
    assert(relative_to(p, s.abs_source) is Some);
    assert forall|i: int| 0 <= i < rest.len() implies #[trigger] relative_to(rest[i], s.abs_source) is Some by {
        assert(rest[i] == entries[i + 1]);
    }
    assert forall|i: int, j: int|
        0 <= i < rest.len() && 0 <= j < rest.len() && handled(s, rest[i]) && handled(s, rest[j])
            implies target(s, #[trigger] rest[j]) != #[trigger] rest[i] by {
        assert(rest[i] == entries[i + 1]);
        assert(rest[j] == entries[j + 1]);
    }
    if handled(s, p) {
        assert(target(s, entries[0]) != entries[0]);
        assert forall|i: int|
            0 <= i < rest.len() && handled(s, rest[i]) implies target_of(
            rest[i],
            s.abs_source,
            s.abs_dest,
        ) != Some(p) && target_of(rest[i], s.abs_source, s.abs_dest) != Some(target(s, p))
            && target(s, p) != rest[i] by {
            assert(rest[i] == entries[i + 1]);
            assert(relative_to(entries[i + 1], s.abs_source) is Some);
            assert(target(s, entries[i + 1]) != entries[0]);
            assert(target(s, entries[0]) != entries[i + 1]);
            targets_are_distinct(s, p, rest[i]);
        }
    }
}

/// A copy that succeeds settles every handled entry, gives every missing
/// target what its entry holds, and changes nothing but the targets of the
/// handled entries.
pub proof fn copying_settles(s: RunView, fs: Fs, entries: Seq<PathView>, now: i128)
    requires
        s.stage == Stage::NextEntry,
        walked(s, entries),
        targets_apart(s, entries),
        copy_entries(s, fs, entries, now).0,
    ensures
        forall|i: int|
            0 <= i < entries.len() && handled(s, entries[i]) ==> settled(
                s,
                copy_entries(s, fs, entries, now).1,
                #[trigger] entries[i],
            ),
        forall|i: int|
            0 <= i < entries.len() && handled(s, entries[i]) ==> mirrored(
                s,
                fs,
                copy_entries(s, fs, entries, now).1,
                #[trigger] entries[i],
            ),
        forall|k: PathView|
            !hits(s, entries, k) ==> agree(fs, #[trigger] copy_entries(s, fs, entries, now).1, k),
    decreases entries.len(),
{
    if entries.len() > 0 {
        let p = entries[0];
        let rest = entries.drop_first();
        let fs_a = handle(s, fs, p, now).1;
        let fs_end = copy_entries(s, fs, entries, now).1;
        rest_misses_first(s, entries);
        if handled(s, p) {
            handling_settles(s, fs, p, now);
        } else {
            passing_over_changes_nothing(s, fs, p, now);
        }
        copying_settles(s, fs_a, rest, now);
        assert(fs_end == copy_entries(s, fs_a, rest, now).1);
        if handled(s, p) {
            settled_is_local(s, fs_a, fs_end, p);
        }
        assert forall|i: int| 0 <= i < entries.len() && handled(s, entries[i]) implies settled(
            s,
            fs_end,
            #[trigger] entries[i],
        ) && mirrored(s, fs, fs_end, entries[i]) by {
            if i > 0 {
                let q = entries[i];
                assert(q == rest[i - 1]);
                if handled(s, p) {
                    assert(relative_to(q, s.abs_source) is Some);
                    targets_are_distinct(s, p, q);
                    assert(agree(fs, fs_a, q));
                    assert(agree(fs, fs_a, target(s, q)));
                }
            }
        }
        assert forall|k: PathView| !hits(s, entries, k) implies agree(
            fs,
            #[trigger] copy_entries(s, fs, entries, now).1,
            k,
        ) by {
            if handled(s, p) {
                assert(target_of(entries[0], s.abs_source, s.abs_dest) != Some(k));
            }
            if hits(s, rest, k) {
                let i = choose|i: int|
                    0 <= i < rest.len() && handled(s, rest[i]) && #[trigger] target_of(
                        rest[i],
                        s.abs_source,
                        s.abs_dest,
                    ) == Some(k);
                assert(entries[i + 1] == rest[i]);
            }
        }
    }
}

/// Copying settled entries succeeds and changes nothing but times.
pub proof fn copying_settled_entries_stays(s: RunView, fs: Fs, entries: Seq<PathView>, now: i128)
    requires
        s.stage == Stage::NextEntry,
        walked(s, entries),
        targets_apart(s, entries),
        forall|i: int|
            0 <= i < entries.len() && handled(s, entries[i]) ==> settled(s, fs, #[trigger] entries[i]),
    ensures
        copy_entries(s, fs, entries, now).0,
        same_but_times(copy_entries(s, fs, entries, now).1, fs),
    decreases entries.len(),
{
    if entries.len() > 0 {
        let p = entries[0];
        let rest = entries.drop_first();
        let fs_a = handle(s, fs, p, now).1;
        rest_misses_first(s, entries);
        if handled(s, p) {
            assert(settled(s, fs, entries[0]));
            settled_entries_stay(s, fs, p, now);
        } else {
            passing_over_changes_nothing(s, fs, p, now);
        }
        assert forall|i: int| 0 <= i < rest.len() && handled(s, rest[i]) implies settled(
            s,
            fs_a,
            #[trigger] rest[i],
        ) by {
            let q = rest[i];
            assert(q == entries[i + 1]);
            assert(settled(s, fs, entries[i + 1]));
            if handled(s, p) {
                assert(relative_to(q, s.abs_source) is Some);
                targets_are_distinct(s, p, q);
                settled_is_local(s, fs, fs_a, q);
            }
        }
        copying_settled_entries_stays(s, fs_a, rest, now);
        let fs_end = copy_entries(s, fs_a, rest, now).1;
        assert(fs_end.dom() =~= fs.dom());
        assert forall|k: PathView| #[trigger] fs_end.contains_key(k) implies same_content(
            fs_end[k],
            fs[k],
        ) by {
            assert(fs_a.contains_key(k));
        }
    }
}

/// A successful copy mirrors the source, when the source does not lie inside
/// the destination (the destination may lie inside the source): every
/// handled entry is settled, every missing target receives what its entry
/// holds, and nothing else changes but the targets of handled entries.
pub proof fn copy_mirrors_the_source(s: RunView, fs: Fs, entries: Seq<PathView>, now: i128)
    requires
        s.stage == Stage::NextEntry,
        relative_to(s.abs_source, s.abs_dest) is None,
        walked(s, entries),
        copy_entries(s, fs, entries, now).0,
    ensures
        forall|i: int|
            0 <= i < entries.len() && !inside_destination(s, entries[i]) ==> settled(
                s,
                copy_entries(s, fs, entries, now).1,
                #[trigger] entries[i],
            ) && mirrored(s, fs, copy_entries(s, fs, entries, now).1, entries[i]),
        forall|k: PathView|
            !hits(s, entries, k) ==> agree(fs, #[trigger] copy_entries(s, fs, entries, now).1, k),
{
    source_outside_destination_keeps_targets_apart(s, entries);
    copying_settles(s, fs, entries, now);
}

/// A second copy of the same entries, made after a first one succeeded,
/// succeeds too and changes nothing but the times of files and
/// directories: the file system holds the same paths with the same content.
/// It holds whenever no handled entry is the target of a handled entry: in
/// particular when the source does not lie inside the destination
/// (`source_outside_destination_keeps_targets_apart`), and when it does but
/// no target falls inside the source
/// (`targets_outside_source_keep_targets_apart`).
pub proof fn second_copy_changes_nothing(
    s: RunView,
    fs: Fs,
    entries: Seq<PathView>,
    first_now: i128,
    second_now: i128,
)
    requires
        s.stage == Stage::NextEntry,
        walked(s, entries),
        targets_apart(s, entries),
        copy_entries(s, fs, entries, first_now).0,
    ensures
        copy_entries(s, copy_entries(s, fs, entries, first_now).1, entries, second_now).0,
        same_but_times(
            copy_entries(s, copy_entries(s, fs, entries, first_now).1, entries, second_now).1,
            copy_entries(s, fs, entries, first_now).1,
        ),
{
    copying_settles(s, fs, entries, first_now);
    copying_settled_entries_stays(s, copy_entries(s, fs, entries, first_now).1, entries, second_now);
}

} // verus!
