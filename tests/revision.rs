use notmuch::Revision;

fn rev(revision: u64, uuid: &str) -> Revision {
    Revision { revision, uuid: uuid.to_string() }
}

#[test]
fn test_single_rev() {
    let rev0 = rev(7, "0f1e");
    let rev1 = rev(7, "0f1e");

    assert!(rev0 == rev1);
    assert!(rev0 <= rev1);
    assert!(rev0 >= rev1);

    assert!(!(rev0 < rev1));
    assert!(!(rev0 > rev1));
}

#[test]
fn test_diff_db() {
    let rev0 = rev(1, "0f1e");
    let rev1 = rev(1, "a9b8");

    assert_ne!(rev0, rev1);
    assert_ne!(rev0.uuid, rev1.uuid);
    assert!(!(rev0 <= rev1));
    assert!(!(rev0 >= rev1));
}

#[test]
fn test_cmp() {
    let rev0 = rev(1, "0f1e");
    let rev1 = rev(2, "0f1e");

    assert!(rev0 < rev1);
    assert!(rev0 <= rev1);
    assert!(!(rev0 > rev1));
    assert!(!(rev0 >= rev1));
    assert!(!(rev0 == rev1));
    assert!(rev0 != rev1);
}
