use dircpy::DirCopy;

#[test]
fn new_replaces_nothing() {
    let c = DirCopy::new("source", "dest");
    assert_eq!(c.source, "source");
    assert_eq!(c.destination, "dest");
    assert!(!c.overwrite);
    assert!(!c.overwrite_only_newer);
}

#[test]
fn overwrite_sets_only_its_flag() {
    let c = DirCopy::new("a", "b").overwrite(true);
    assert!(c.overwrite);
    assert!(!c.overwrite_only_newer);
    assert_eq!(c.source, "a");
    assert_eq!(c.destination, "b");
    let c = c.overwrite(false);
    assert!(!c.overwrite);
}

#[test]
fn overwrite_only_newer_sets_only_its_flag() {
    let c = DirCopy::new("a", "b").overwrite_only_newer(true);
    assert!(c.overwrite_only_newer);
    assert!(!c.overwrite);
    let c = c.overwrite(true).overwrite_only_newer(false);
    assert!(c.overwrite);
    assert!(!c.overwrite_only_newer);
    assert_eq!(c.source, "a");
    assert_eq!(c.destination, "b");
}
