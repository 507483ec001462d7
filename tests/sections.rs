use notmuch::{
    notmuch_status_t, AtomicOperation, Database, DatabasePtr, Error, FrozenMessage, MessagePtr,
    Registry, Status,
};

const OK: notmuch_status_t = notmuch_status_t::NOTMUCH_STATUS_SUCCESS;

fn setup(registry: &mut Registry) -> (Database, notmuch::Message) {
    let db = Database::create(registry, OK, DatabasePtr(100)).unwrap();
    let msg = db.find_message(registry, OK, MessagePtr(200)).unwrap().unwrap();
    (db, msg)
}

#[test]
fn freeze_thaw_balance() {
    let mut r = Registry::new();
    let (_db, msg) = setup(&mut r);
    for _ in 0..3 {
        msg.freeze(&mut r, OK).unwrap();
    }
    assert_eq!(msg.thaw(&mut r, OK).unwrap(), false);
    assert_eq!(msg.thaw(&mut r, OK).unwrap(), false);
    assert_eq!(r.node(&msg.handle).unwrap().depth, 1);
    assert_eq!(msg.thaw(&mut r, OK).unwrap(), true);
    assert_eq!(r.node(&msg.handle).unwrap().depth, 0);
}

#[test]
fn thaw_without_freeze_is_unbalanced() {
    let mut r = Registry::new();
    let (_db, msg) = setup(&mut r);
    match msg.thaw(&mut r, OK) {
        Err(Error::NotmuchError(Status::UnbalancedFreezeThaw)) => {}
        other => panic!("unexpected {:?}", other),
    }
}

#[test]
fn failed_freeze_changes_nothing() {
    let mut r = Registry::new();
    let (_db, msg) = setup(&mut r);
    match msg.freeze(&mut r, notmuch_status_t::NOTMUCH_STATUS_READ_ONLY_DATABASE) {
        Err(Error::NotmuchError(Status::ReadOnlyDatabase)) => {}
        other => panic!("unexpected {:?}", other),
    }
    assert_eq!(r.node(&msg.handle).unwrap().depth, 0);
    match FrozenMessage::new(&mut r, &msg, notmuch_status_t::NOTMUCH_STATUS_XAPIAN_EXCEPTION) {
        Err(Error::NotmuchError(Status::XapianException)) => {}
        _ => panic!("freeze should fail"),
    }
}

#[test]
fn atomic_nesting() {
    let mut r = Registry::new();
    let (db, _msg) = setup(&mut r);
    db.begin_atomic(&mut r, OK).unwrap();
    db.begin_atomic(&mut r, OK).unwrap();
    db.end_atomic(&mut r, OK).unwrap();
    assert_eq!(r.node(&db.handle).unwrap().depth, 1);
    assert!(db.end_atomic(&mut r, OK).is_ok());
    match db.end_atomic(&mut r, OK) {
        Err(Error::NotmuchError(Status::UnbalancedAtomic)) => {}
        other => panic!("unexpected {:?}", other),
    }
}

#[test]
fn atomic_guard_closes_on_error_path() {
    let mut r = Registry::new();
    let (db, _msg) = setup(&mut r);
    let guard = AtomicOperation::new(&mut r, &db, OK).unwrap();
    let failed = db.index_file(&mut r, notmuch_status_t::NOTMUCH_STATUS_FILE_NOT_EMAIL, MessagePtr(0));
    assert!(matches!(failed, Err(Error::NotmuchError(Status::FileNotEmail))));
    guard.end(&mut r, OK).unwrap();
    assert_eq!(r.node(&db.handle).unwrap().depth, 0);
}

#[test]
fn end_atomic_reports_native_failure() {
    let mut r = Registry::new();
    let (db, _msg) = setup(&mut r);
    db.begin_atomic(&mut r, OK).unwrap();
    match db.end_atomic(&mut r, notmuch_status_t::NOTMUCH_STATUS_XAPIAN_EXCEPTION) {
        Err(Error::NotmuchError(Status::XapianException)) => {}
        other => panic!("unexpected {:?}", other),
    }
    assert_eq!(r.node(&db.handle).unwrap().depth, 1);
}
