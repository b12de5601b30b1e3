use dircpy::{Action, CopyRun, DirCopy, EntryKind, Event, Stage, TargetKind};

fn p(parts: &[&str]) -> Vec<Vec<u8>> {
    parts.iter().map(|s| s.as_bytes().to_vec()).collect()
}

/// Brings a run of `config` to the point where it waits for the first entry,
/// with `/src` and `/dst` as canonical directories.
fn started(config: &DirCopy, dest_is_dir: bool) -> CopyRun {
    let (mut run, a) = CopyRun::new(config);
    assert_eq!(a, Action::Resolve(config.source.clone()));
    let a = run.step(Event::Resolved(p(&["/", "src"])));
    assert_eq!(a, Action::QueryIsDir(config.destination.clone()));
    let a = run.step(Event::IsDir(dest_is_dir));
    if !dest_is_dir {
        assert_eq!(a, Action::CreateRoot(config.destination.clone()));
        let a = run.step(Event::Succeeded);
        assert_eq!(a, Action::Resolve(config.destination.clone()));
    } else {
        assert_eq!(a, Action::Resolve(config.destination.clone()));
    }
    let a = run.step(Event::Resolved(p(&["/", "dst"])));
    assert_eq!(a, Action::StartWalk(p(&["/", "src"])));
    assert_eq!(run.stage(), Stage::NextEntry);
    run
}

fn file(parts: &[&str]) -> Event {
    Event::Entry { path: p(parts), kind: EntryKind::File }
}

#[test]
fn full_run_into_missing_destination() {
    let config = DirCopy::new("src", "dst").overwrite(true);
    let mut run = started(&config, false);
    let a = run.step(Event::Entry { path: p(&["/", "src"]), kind: EntryKind::Dir });
    assert_eq!(a, Action::CreateDir(p(&["/", "dst"])));
    assert_eq!(run.step(Event::Succeeded), Action::NextEntry);
    let a = run.step(Event::Entry { path: p(&["/", "src", "level1"]), kind: EntryKind::Dir });
    assert_eq!(a, Action::CreateDir(p(&["/", "dst", "level1"])));
    assert_eq!(run.step(Event::Succeeded), Action::NextEntry);
    let a = run.step(file(&["/", "src", "level1", "other_file"]));
    assert_eq!(
        a,
        Action::CopyFile {
            from: p(&["/", "src", "level1", "other_file"]),
            to: p(&["/", "dst", "level1", "other_file"]),
        }
    );
    assert_eq!(run.step(Event::Succeeded), Action::NextEntry);
    assert_eq!(run.step(Event::WalkEnd), Action::Finish(true));
    assert_eq!(run.stage(), Stage::Finished);
    assert_eq!(run.step(Event::Succeeded), Action::Finish(true));
}

#[test]
fn existing_destination_is_not_created() {
    let config = DirCopy::new("src", "dst");
    let run = started(&config, true);
    assert_eq!(run.stage(), Stage::NextEntry);
}

#[test]
fn existing_file_is_kept_without_overwrite() {
    let config = DirCopy::new("src", "dst");
    let mut run = started(&config, true);
    let a = run.step(file(&["/", "src", "test"]));
    assert_eq!(a, Action::QueryTarget(p(&["/", "dst", "test"])));
    assert_eq!(run.step(Event::Target(TargetKind::File)), Action::NextEntry);
    assert_eq!(run.stage(), Stage::NextEntry);
}

#[test]
fn missing_file_is_copied_without_overwrite() {
    let config = DirCopy::new("src", "dst");
    let mut run = started(&config, true);
    run.step(file(&["/", "src", "test"]));
    assert_eq!(
        run.step(Event::Target(TargetKind::Missing)),
        Action::CopyFile { from: p(&["/", "src", "test"]), to: p(&["/", "dst", "test"]) }
    );
}

#[test]
fn overwrite_copies_without_asking() {
    let config = DirCopy::new("src", "dst").overwrite(true);
    let mut run = started(&config, true);
    assert_eq!(
        run.step(file(&["/", "src", "a", "b.txt"])),
        Action::CopyFile { from: p(&["/", "src", "a", "b.txt"]), to: p(&["/", "dst", "a", "b.txt"]) }
    );
}

#[test]
fn only_newer_compares_times_of_existing_targets() {
    let config = DirCopy::new("src", "dst").overwrite(true).overwrite_only_newer(true);
    let mut run = started(&config, true);
    let modified = Action::QueryModified { source: p(&["/", "src", "f"]), target: p(&["/", "dst", "f"]) };
    let copy = Action::CopyFile { from: p(&["/", "src", "f"]), to: p(&["/", "dst", "f"]) };
    assert_eq!(run.step(file(&["/", "src", "f"])), Action::QueryTarget(p(&["/", "dst", "f"])));
    assert_eq!(run.step(Event::Target(TargetKind::File)), modified);
    // older source: left alone
    assert_eq!(run.step(Event::Modified { source: 5, target: 10 }), Action::NextEntry);
    // same time: copied
    run.step(file(&["/", "src", "f"]));
    run.step(Event::Target(TargetKind::File));
    assert_eq!(run.step(Event::Modified { source: -3, target: -3 }), copy);
    assert_eq!(run.step(Event::Succeeded), Action::NextEntry);
    // newer source: copied
    run.step(file(&["/", "src", "f"]));
    run.step(Event::Target(TargetKind::File));
    assert_eq!(run.step(Event::Modified { source: 11, target: 10 }), copy);
}

#[test]
fn only_newer_copies_into_missing_target() {
    let config = DirCopy::new("source", "dest").overwrite(true).overwrite_only_newer(true);
    let mut run = started(&config, false);
    assert_eq!(run.step(file(&["/", "src", "test"])), Action::QueryTarget(p(&["/", "dst", "test"])));
    assert_eq!(
        run.step(Event::Target(TargetKind::Missing)),
        Action::CopyFile { from: p(&["/", "src", "test"]), to: p(&["/", "dst", "test"]) }
    );
    assert_eq!(run.step(Event::Succeeded), Action::NextEntry);
    assert_eq!(run.step(Event::WalkEnd), Action::Finish(true));
}

#[test]
fn only_newer_without_overwrite_keeps_existing_targets() {
    let config = DirCopy::new("src", "dst").overwrite_only_newer(true);
    let mut run = started(&config, true);
    assert_eq!(run.step(file(&["/", "src", "f"])), Action::QueryTarget(p(&["/", "dst", "f"])));
    assert_eq!(run.step(Event::Target(TargetKind::File)), Action::NextEntry);
    assert_eq!(run.step(file(&["/", "src", "g"])), Action::QueryTarget(p(&["/", "dst", "g"])));
    assert_eq!(
        run.step(Event::Target(TargetKind::Missing)),
        Action::CopyFile { from: p(&["/", "src", "g"]), to: p(&["/", "dst", "g"]) }
    );
}

#[test]
fn links_are_recreated_as_links() {
    let config = DirCopy::new("basic_src", "basic_dest").overwrite(true).overwrite_only_newer(true);
    let mut run = started(&config, false);
    let link = Event::Link { path: p(&["/", "src", "symlink"]), target: b"exec_file".to_vec() };
    assert_eq!(run.step(link), Action::QueryExists(p(&["/", "dst", "symlink"])));
    assert_eq!(
        run.step(Event::Exists(false)),
        Action::CreateLink { target: b"exec_file".to_vec(), at: p(&["/", "dst", "symlink"]) }
    );
    assert_eq!(run.step(Event::Succeeded), Action::NextEntry);
    let dangling =
        Event::Link { path: p(&["/", "src", "dangling_symlink"]), target: b"does_not_exist".to_vec() };
    assert_eq!(run.step(dangling), Action::QueryExists(p(&["/", "dst", "dangling_symlink"])));
    assert_eq!(
        run.step(Event::Exists(true)),
        Action::ReplaceLink {
            target: b"does_not_exist".to_vec(),
            at: p(&["/", "dst", "dangling_symlink"]),
        }
    );
    assert_eq!(run.step(Event::Succeeded), Action::NextEntry);
}

#[test]
fn existing_link_target_is_kept_without_overwrite() {
    let config = DirCopy::new("src", "dst");
    let mut run = started(&config, true);
    run.step(Event::Link { path: p(&["/", "src", "l"]), target: b"x".to_vec() });
    assert_eq!(run.step(Event::Exists(true)), Action::NextEntry);
}

#[test]
fn destination_inside_source_is_passed_over() {
    let config = DirCopy::new("source", "source/subdir");
    let (mut run, _) = CopyRun::new(&config);
    run.step(Event::Resolved(p(&["/", "source"])));
    run.step(Event::IsDir(true));
    assert_eq!(run.step(Event::Resolved(p(&["/", "source", "subdir"]))), Action::StartWalk(p(&["/", "source"])));
    assert_eq!(
        run.step(Event::Entry { path: p(&["/", "source"]), kind: EntryKind::Dir }),
        Action::CreateDir(p(&["/", "source", "subdir"]))
    );
    assert_eq!(run.step(Event::Succeeded), Action::NextEntry);
    assert_eq!(
        run.step(Event::Entry { path: p(&["/", "source", "subdir"]), kind: EntryKind::Dir }),
        Action::NextEntry
    );
    assert_eq!(run.step(file(&["/", "source", "subdir", "a.jpg"])), Action::NextEntry);
    assert_eq!(
        run.step(file(&["/", "source", "a.jpg"])),
        Action::QueryTarget(p(&["/", "source", "subdir", "a.jpg"]))
    );
    assert_eq!(
        run.step(Event::Target(TargetKind::Missing)),
        Action::CopyFile { from: p(&["/", "source", "a.jpg"]), to: p(&["/", "source", "subdir", "a.jpg"]) }
    );
    assert_eq!(run.step(Event::Succeeded), Action::NextEntry);
    assert_eq!(run.step(Event::WalkEnd), Action::Finish(true));
}

#[test]
fn unreadable_entries_are_skipped() {
    let config = DirCopy::new("src", "dst");
    let mut run = started(&config, true);
    assert_eq!(run.step(Event::Unreadable), Action::NextEntry);
    assert_eq!(run.stage(), Stage::NextEntry);
}

#[test]
fn other_entries_are_skipped() {
    let config = DirCopy::new("src", "dst").overwrite(true);
    let mut run = started(&config, true);
    let a = run.step(Event::Entry { path: p(&["/", "src", "dangling"]), kind: EntryKind::Other });
    assert_eq!(a, Action::NextEntry);
    assert_eq!(run.stage(), Stage::NextEntry);
}

#[test]
fn failed_copy_ends_the_run() {
    let config = DirCopy::new("src", "dst").overwrite(true);
    let mut run = started(&config, true);
    run.step(file(&["/", "src", "f"]));
    assert_eq!(run.step(Event::Failed), Action::Finish(false));
    assert_eq!(run.stage(), Stage::Failed);
    assert_eq!(run.step(Event::WalkEnd), Action::Finish(false));
}

#[test]
fn failed_directory_creation_ends_the_run() {
    let config = DirCopy::new("src", "dst");
    let mut run = started(&config, true);
    run.step(Event::Entry { path: p(&["/", "src", "d"]), kind: EntryKind::Dir });
    assert_eq!(run.step(Event::Failed), Action::Finish(false));
}

#[test]
fn failed_destination_creation_ends_the_run() {
    let config = DirCopy::new("src", "dst");
    let (mut run, _) = CopyRun::new(&config);
    run.step(Event::Resolved(p(&["/", "src"])));
    assert_eq!(run.step(Event::IsDir(false)), Action::CreateRoot("dst".to_string()));
    assert_eq!(run.step(Event::Failed), Action::Finish(false));
}

#[test]
fn entry_outside_source_halts() {
    let config = DirCopy::new("src", "dst");
    let mut run = started(&config, true);
    assert_eq!(run.step(file(&["/", "elsewhere", "f"])), Action::Halt);
    assert_eq!(run.stage(), Stage::Halted);
    assert_eq!(run.step(Event::WalkEnd), Action::Halt);
}

#[test]
fn unexpected_answer_halts() {
    let config = DirCopy::new("src", "dst");
    let (mut run, _) = CopyRun::new(&config);
    assert_eq!(run.step(Event::WalkEnd), Action::Halt);
    assert_eq!(run.stage(), Stage::Halted);
}

#[test]
fn only_newer_compares_times_with_a_directory_at_the_target() {
    let config = DirCopy::new("src", "dst").overwrite(true).overwrite_only_newer(true);
    let mut run = started(&config, true);
    run.step(file(&["/", "src", "f"]));
    assert_eq!(
        run.step(Event::Target(TargetKind::Other)),
        Action::QueryModified { source: p(&["/", "src", "f"]), target: p(&["/", "dst", "f"]) }
    );
    // the directory is newer: left alone, and the copy goes on
    assert_eq!(run.step(Event::Modified { source: 1, target: 2 }), Action::NextEntry);
    assert_eq!(run.step(Event::WalkEnd), Action::Finish(true));
}

#[test]
fn only_newer_without_overwrite_compares_times_with_a_directory() {
    let config = DirCopy::new("src", "dst").overwrite_only_newer(true);
    let mut run = started(&config, true);
    run.step(file(&["/", "src", "f"]));
    assert_eq!(
        run.step(Event::Target(TargetKind::Other)),
        Action::QueryModified { source: p(&["/", "src", "f"]), target: p(&["/", "dst", "f"]) }
    );
}

#[test]
fn directory_at_the_target_is_copied_onto_without_times() {
    let config = DirCopy::new("src", "dst");
    let mut run = started(&config, true);
    run.step(file(&["/", "src", "f"]));
    assert_eq!(
        run.step(Event::Target(TargetKind::Other)),
        Action::CopyFile { from: p(&["/", "src", "f"]), to: p(&["/", "dst", "f"]) }
    );
    assert_eq!(run.step(Event::Failed), Action::Finish(false));
}
