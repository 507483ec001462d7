use notmuch::{
    notmuch_status_t, Database, DatabasePtr, FrozenMessage, Message, MessagePtr, Mode, QueryPtr,
    Registry, Thread, ThreadPtr,
};

const OK: notmuch_status_t = notmuch_status_t::NOTMUCH_STATUS_SUCCESS;

fn fixture(r: &mut Registry) -> (Database, Message) {
    let db = Database::create(r, OK, DatabasePtr(0x10)).unwrap();
    let msg = db.index_file(r, OK, MessagePtr(0x20)).unwrap();
    (db, msg)
}

#[test]
fn test_header() {
    let mut r = Registry::new();
    let (_db, msg) = fixture(&mut r);
    let from = Some("<src@example.com>".to_string());
    assert_eq!(msg.header(from).unwrap().unwrap().to_string(), "<src@example.com>");
}

#[test]
fn test_header_not_present() {
    let mut r = Registry::new();
    let (_db, msg) = fixture(&mut r);
    assert_eq!(msg.header(Some(String::new())).unwrap(), None);
}

#[test]
fn test_freeze() {
    let mut r = Registry::new();
    let (_db, msg) = fixture(&mut r);

    msg.freeze(&mut r, OK).unwrap();
    assert_eq!(r.node(&msg.handle).unwrap().depth, 1);
    assert!(msg.thaw(&mut r, OK).unwrap());
    assert_eq!(r.node(&msg.handle).unwrap().depth, 0);
}

#[test]
fn test_freeze_context() {
    let mut r = Registry::new();
    let (_db, msg) = fixture(&mut r);
    {
        let frozen = FrozenMessage::new(&mut r, &msg, OK).unwrap();
        assert_eq!(r.node(&msg.handle).unwrap().depth, 1);
        assert!(frozen.thaw(&mut r, OK).unwrap());
    }
    assert_eq!(r.node(&msg.handle).unwrap().depth, 0);
}

#[test]
fn test_authors() {
    let mut r = Registry::new();
    let (db, _msg) = fixture(&mut r);
    let q = db.create_query(&mut r, QueryPtr(0x30)).unwrap();
    let thread = Thread::from_ptr(&mut r, ThreadPtr(0x40), &q.handle, Mode::Shared);

    assert_eq!(thread.authors("src@example.com"), vec!["src@example.com".to_string()]);
}
