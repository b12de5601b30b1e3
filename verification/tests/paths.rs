use dircpy::{append_components, copy_components, strip_components};

fn p(parts: &[&str]) -> Vec<Vec<u8>> {
    parts.iter().map(|s| s.as_bytes().to_vec()).collect()
}

#[test]
fn strip_leading_components() {
    assert_eq!(
        strip_components(&p(&["/", "src", "a", "b.txt"]), &p(&["/", "src"])),
        Some(p(&["a", "b.txt"]))
    );
}

#[test]
fn strip_whole_path_leaves_nothing() {
    assert_eq!(strip_components(&p(&["/", "src"]), &p(&["/", "src"])), Some(p(&[])));
}

#[test]
fn strip_foreign_base_fails() {
    assert_eq!(strip_components(&p(&["/", "srcx", "a"]), &p(&["/", "src"])), None);
    assert_eq!(strip_components(&p(&["/"]), &p(&["/", "src"])), None);
}

#[test]
fn append_concatenates() {
    assert_eq!(
        append_components(&p(&["/", "dst"]), &p(&["a", "b.txt"])),
        p(&["/", "dst", "a", "b.txt"])
    );
    assert_eq!(append_components(&p(&[]), &p(&["x"])), p(&["x"]));
}

#[test]
fn copy_is_equal() {
    let v = p(&["/", "x", "y"]);
    assert_eq!(copy_components(&v), v);
}

#[test]
fn strip_undoes_append() {
    let base = p(&["/", "dst"]);
    let rel = p(&["level1", "other_file"]);
    assert_eq!(strip_components(&append_components(&base, &rel), &base), Some(rel));
}

#[test]
fn names_that_are_not_unicode_are_kept() {
    let base = vec![b"/".to_vec(), vec![0xff, 0xfe]];
    let path = vec![b"/".to_vec(), vec![0xff, 0xfe], vec![0x80, b'a']];
    assert_eq!(strip_components(&path, &base), Some(vec![vec![0x80, b'a']]));
    let other = vec![b"/".to_vec(), vec![0xff, 0xfd]];
    assert_eq!(strip_components(&path, &other), None);
}
