use notmuch::{
    notmuch_status_t, AtomicOperation, Database, DatabasePtr, FrozenMessage, MessagePtr, Registry,
};

const OK: notmuch_status_t = notmuch_status_t::NOTMUCH_STATUS_SUCCESS;

/// Adds one file: an atomic section around indexing it, and a freeze
/// around its first tag changes.
#[test]
fn test_add_file() {
    let mut registry = Registry::new();
    let db = Database::create(&mut registry, OK, DatabasePtr(0x1000)).unwrap();
    let atomic = AtomicOperation::new(&mut registry, &db, OK).unwrap();
    let msg = db
        .index_file(&mut registry, OK, MessagePtr(0x2000))
        .unwrap();
    {
        let frozen = FrozenMessage::new(&mut registry, &msg, OK).unwrap();
        assert_eq!(registry.node(&msg.handle).unwrap().depth, 1);
        assert_eq!(frozen.thaw(&mut registry, OK).unwrap(), true);
    }
    atomic.end(&mut registry, OK).unwrap();
    assert_eq!(registry.node(&db.handle).unwrap().depth, 0);
    assert_eq!(registry.release(msg.handle).unwrap(), vec![1]);
    assert_eq!(registry.release(db.handle).unwrap(), vec![0]);
}
