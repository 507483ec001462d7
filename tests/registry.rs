use notmuch::{Handle, Kind, Mode, Registry, RegistryError};

fn db(registry: &mut Registry, native: usize) -> Handle {
    registry.open(native).unwrap()
}

#[test]
fn single_destroy_many_handles() {
    let mut r = Registry::new();
    let d = db(&mut r, 10);
    let clones: Vec<Handle> = (0..5).map(|_| r.clone_handle(&d).unwrap()).collect();
    assert_eq!(r.node(&d).unwrap().holders, 6);
    let mut destroyed = Vec::new();
    for c in clones {
        destroyed.extend(r.release(c).unwrap());
    }
    assert!(destroyed.is_empty());
    destroyed.extend(r.release(d).unwrap());
    assert_eq!(destroyed, vec![0]);
    assert_eq!(r.release(Handle { id: 0 }), Err(RegistryError::Stale));
}

#[test]
fn single_destroy_tree() {
    let mut r = Registry::new();
    let d = db(&mut r, 10);
    let q = r.derive(&d, Mode::Shared, Kind::Query, 20).unwrap();
    let ms = r.derive(&q, Mode::Shared, Kind::Messages, 30).unwrap();
    let m = r.derive(&ms, Mode::Shared, Kind::Message, 40).unwrap();
    let t = r.derive(&m, Mode::Shared, Kind::Tags, 50).unwrap();
    assert!(r.release(d).unwrap().is_empty());
    assert!(r.release(q).unwrap().is_empty());
    assert!(r.release(ms).unwrap().is_empty());
    assert!(r.release(m).unwrap().is_empty());
    assert_eq!(r.release(t).unwrap(), vec![4, 3, 2, 1, 0]);
}

#[test]
fn shared_survival() {
    let mut r = Registry::new();
    let d = db(&mut r, 10);
    let m = r.derive(&d, Mode::Shared, Kind::Message, 11).unwrap();
    assert!(r.release(d).unwrap().is_empty());
    assert!(r.node(&Handle { id: 0 }).unwrap().live);
    assert_eq!(r.release(m).unwrap(), vec![1, 0]);
    assert!(!r.node(&Handle { id: 0 }).unwrap().live);
}

#[test]
fn borrow_pins_parent() {
    let mut r = Registry::new();
    let d = db(&mut r, 10);
    let m = r.derive(&d, Mode::Borrowed, Kind::Message, 11).unwrap();
    let t = r.derive(&m, Mode::Shared, Kind::Tags, 12).unwrap();
    assert_eq!(r.release(Handle { id: d.id }), Err(RegistryError::BorrowOutstanding));
    assert_eq!(
        r.derive(&d, Mode::Owned, Kind::Query, 13),
        Err(RegistryError::BorrowOutstanding)
    );
    assert!(r.release(m).unwrap().is_empty());
    assert_eq!(r.release(Handle { id: d.id }), Err(RegistryError::BorrowOutstanding));
    assert_eq!(r.release(t).unwrap(), vec![2, 1]);
    assert_eq!(r.release(d).unwrap(), vec![0]);
}

#[test]
fn promote_lets_child_outlive_handle() {
    let mut r = Registry::new();
    let d = db(&mut r, 10);
    let m = r.derive(&d, Mode::Borrowed, Kind::Message, 11).unwrap();
    r.promote(&m).unwrap();
    assert_eq!(r.node(&m).unwrap().mode, Mode::Shared);
    assert_eq!(r.promote(&m), Err(RegistryError::NotBorrowed));
    assert!(r.release(d).unwrap().is_empty());
    assert_eq!(r.release(m).unwrap(), vec![1, 0]);
}

#[test]
fn owned_child_takes_parent_handle() {
    let mut r = Registry::new();
    let d = db(&mut r, 10);
    let q = r.derive(&d, Mode::Owned, Kind::Query, 20).unwrap();
    assert_eq!(r.node(&d).unwrap().holders, 0);
    assert_eq!(r.release(d), Err(RegistryError::Stale));
    assert_eq!(r.release(q).unwrap(), vec![1, 0]);
}

#[test]
fn derive_errors() {
    let mut r = Registry::new();
    let d = db(&mut r, 10);
    assert_eq!(r.derive(&d, Mode::Shared, Kind::Thread, 20), Err(RegistryError::WrongParent));
    assert_eq!(r.derive(&d, Mode::Shared, Kind::Database, 20), Err(RegistryError::WrongParent));
    assert_eq!(r.derive(&d, Mode::Shared, Kind::Query, 0), Err(RegistryError::NullPointer));
    assert_eq!(
        r.derive(&d, Mode::Shared, Kind::Query, 10),
        Err(RegistryError::AlreadyRegistered)
    );
    assert_eq!(
        r.derive(&Handle { id: 7 }, Mode::Shared, Kind::Query, 20),
        Err(RegistryError::Stale)
    );
    assert_eq!(r.open(0), Err(RegistryError::NullPointer));
    assert_eq!(r.open(10), Err(RegistryError::AlreadyRegistered));
    assert!(r.is_registered(10));
    assert!(!r.is_registered(20));
    assert!(r.is_usable(&d));
}

#[test]
fn address_reusable_after_destroy() {
    let mut r = Registry::new();
    let d = db(&mut r, 10);
    assert_eq!(r.release(d).unwrap(), vec![0]);
    let again = r.open(10).unwrap();
    assert_eq!(again.id, 1);
}

#[test]
fn nesting_counts() {
    let mut r = Registry::new();
    let d = db(&mut r, 10);
    assert_eq!(r.unnest(&d), Err(RegistryError::Unbalanced));
    assert_eq!(r.nest(&d), Ok(1));
    assert_eq!(r.nest(&d), Ok(2));
    assert_eq!(r.unnest(&d), Ok(1));
    assert_eq!(r.unnest(&d), Ok(0));
    assert_eq!(r.unnest(&d), Err(RegistryError::Unbalanced));
}

#[test]
fn kinds_follow_resource_tree() {
    assert!(Kind::Message.may_derive_from(Kind::Database));
    assert!(Kind::Message.may_derive_from(Kind::Thread));
    assert!(Kind::Filenames.may_derive_from(Kind::Directory));
    assert!(!Kind::Filenames.may_derive_from(Kind::Query));
    assert!(!Kind::Database.may_derive_from(Kind::Database));
    assert!(Kind::MessageProperties.may_derive_from(Kind::Message));
}
