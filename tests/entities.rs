use notmuch::{
    notmuch_status_t, ConfigPairs, ConfigPairsPtr, Database, DatabasePtr, DirectoryPtr, Error,
    FilenamesPtr, Kind, MessagePtr, MessagesPtr, Mode, Query, QueryPtr, Registry, Revision, Status,
    TagsPtr, ThreadPtr, ThreadsPtr,
};
use std::cmp::Ordering;

const OK: notmuch_status_t = notmuch_status_t::NOTMUCH_STATUS_SUCCESS;

fn open(r: &mut Registry) -> Database {
    Database::open(r, OK, DatabasePtr(1)).unwrap()
}

#[test]
fn open_failure_registers_nothing() {
    let mut r = Registry::new();
    let failed = Database::open_with_config(&mut r, notmuch_status_t::NOTMUCH_STATUS_FILE_ERROR, DatabasePtr(0));
    assert!(matches!(failed, Err(Error::NotmuchError(Status::FileError))));
    assert!(matches!(
        Database::create(&mut r, OK, DatabasePtr(0)),
        Err(Error::NotmuchError(Status::NullPointer))
    ));
    assert!(r.node(&notmuch::Handle { id: 0 }).is_none());
}

#[test]
fn find_message_outcomes() {
    let mut r = Registry::new();
    let db = open(&mut r);
    assert!(db.find_message(&mut r, OK, MessagePtr(0)).unwrap().is_none());
    assert!(matches!(
        db.find_message(&mut r, notmuch_status_t::NOTMUCH_STATUS_OUT_OF_MEMORY, MessagePtr(0)),
        Err(Error::NotmuchError(Status::OutOfMemory))
    ));
    let m = db.find_message_by_filename(&mut r, OK, MessagePtr(7)).unwrap().unwrap();
    let node = r.node(&m.handle).unwrap();
    assert_eq!(node.kind, Kind::Message);
    assert_eq!(node.native, 7);
    assert_eq!(node.parent, Some(db.handle.id));
    assert_eq!(node.mode, Mode::Shared);
}

#[test]
fn removed_file_gives_no_message() {
    let mut r = Registry::new();
    let db = open(&mut r);
    let m = db.index_file(&mut r, OK, MessagePtr(5)).unwrap();
    assert!(db.remove_message(OK).is_ok());
    assert_eq!(r.release(m.handle).unwrap(), vec![1]);
    assert!(db.find_message(&mut r, OK, MessagePtr(0)).unwrap().is_none());
}

#[test]
fn query_chain() {
    let mut r = Registry::new();
    let db = open(&mut r);
    let q = Query::create(&mut r, &db, QueryPtr(2)).unwrap();
    assert!(matches!(
        Query::create(&mut r, &db, QueryPtr(0)),
        Err(Error::NotmuchError(Status::NullPointer))
    ));
    assert_eq!(q.count_threads(OK, 2).unwrap(), 2);
    assert!(matches!(
        q.count_messages(notmuch_status_t::NOTMUCH_STATUS_XAPIAN_EXCEPTION, 9),
        Err(Error::NotmuchError(Status::XapianException))
    ));
    let mut threads = q.search_threads(&mut r, OK, ThreadsPtr(3)).unwrap();
    let t = threads.next(&mut r, Some(ThreadPtr(4))).unwrap();
    assert!(threads.next(&mut r, None).is_none());
    let mut msgs = t.messages(&mut r, MessagesPtr(5)).unwrap();
    let m = msgs.next(&mut r, Some(MessagePtr(6))).unwrap();
    let mut tags = m.tags(&mut r, TagsPtr(8)).unwrap();
    assert_eq!(tags.next(None), None);
    assert_eq!(r.node(&m.handle).unwrap().parent, Some(msgs.handle.id));
    assert!(matches!(
        q.search_messages(&mut r, notmuch_status_t::NOTMUCH_STATUS_XAPIAN_EXCEPTION, MessagesPtr(9)),
        Err(Error::NotmuchError(Status::XapianException))
    ));
}

#[test]
fn authors_split_on_commas() {
    let mut r = Registry::new();
    let db = open(&mut r);
    let q = db.create_query(&mut r, QueryPtr(2)).unwrap();
    let thread = notmuch::Thread::from_ptr(&mut r, ThreadPtr(3), &q.handle, Mode::Borrowed);
    assert_eq!(
        thread.authors("src@example.com, Other Person"),
        vec!["src@example.com".to_string(), " Other Person".to_string()]
    );
}

#[test]
fn header_and_property_answers() {
    let mut r = Registry::new();
    let db = open(&mut r);
    let m = db.find_message(&mut r, OK, MessagePtr(3)).unwrap().unwrap();
    assert_eq!(m.header(Some("<src@example.com>".to_string())).unwrap(), Some("<src@example.com>".to_string()));
    assert_eq!(m.header(Some(String::new())).unwrap(), None);
    assert!(matches!(m.header(None), Err(Error::UnspecifiedError)));
    assert_eq!(m.property(OK, Some("v".to_string())).unwrap(), "v");
    assert!(matches!(m.property(OK, None), Err(Error::UnspecifiedError)));
    assert!(matches!(
        m.property(notmuch_status_t::NOTMUCH_STATUS_NULL_POINTER, Some("v".to_string())),
        Err(Error::NotmuchError(Status::NullPointer))
    ));
    assert_eq!(m.count_properties(OK, 4).unwrap(), 4);
}

#[test]
fn replies_null_means_none() {
    let mut r = Registry::new();
    let db = open(&mut r);
    let m = db.find_message(&mut r, OK, MessagePtr(3)).unwrap().unwrap();
    assert!(m.replies(&mut r, MessagesPtr(0)).is_none());
    let replies = m.replies(&mut r, MessagesPtr(4)).unwrap();
    assert_eq!(r.node(&replies.handle).unwrap().kind, Kind::Messages);
}

#[test]
fn directory_and_config() {
    let mut r = Registry::new();
    let db = open(&mut r);
    assert!(db.directory(&mut r, OK, DirectoryPtr(0)).unwrap().is_none());
    let dir = db.directory(&mut r, OK, DirectoryPtr(2)).unwrap().unwrap();
    let mut names = dir.child_directories(&mut r, FilenamesPtr(3)).unwrap();
    assert_eq!(names.next(Some("cur".to_string())), Some("cur".to_string()));
    let mut pairs = ConfigPairs::from_ptr(&mut r, ConfigPairsPtr(4), &db.handle, Mode::Shared);
    assert_eq!(
        pairs.next(Some(("user.name".to_string(), None))),
        Some(("user.name".to_string(), None))
    );
    assert!(db.all_tags(&mut r, TagsPtr(5)).is_ok());
    assert!(db.default_indexopts(&mut r, notmuch::IndexOptsPtr(6)).is_ok());
    assert!(matches!(
        db.config_list(&mut r, notmuch_status_t::NOTMUCH_STATUS_OUT_OF_MEMORY, notmuch::ConfigListPtr(0)),
        Err(Error::NotmuchError(Status::OutOfMemory))
    ));
}

#[test]
fn revisions_compare_within_one_database() {
    let a = Revision { revision: 3, uuid: "u".to_string() };
    let b = Revision { revision: 5, uuid: "u".to_string() };
    let c = Revision { revision: 5, uuid: "v".to_string() };
    assert_eq!(a.partial_cmp(&b), Some(Ordering::Less));
    assert_eq!(b.partial_cmp(&a), Some(Ordering::Greater));
    assert_eq!(a.partial_cmp(&a.clone()), Some(Ordering::Equal));
    assert_eq!(b.partial_cmp(&c), None);
    assert!(a < b);
    assert!(b != c);
    assert!(a == a.clone());
}

#[test]
fn status_only_operations() {
    assert!(Database::compact(OK).is_ok());
    assert!(matches!(
        Database::compact_with_status(notmuch_status_t::NOTMUCH_STATUS_FILE_ERROR),
        Err(Error::NotmuchError(Status::FileError))
    ));
    let mut r = Registry::new();
    let db = open(&mut r);
    assert!(db.close(OK).is_ok());
    assert!(matches!(
        db.upgrade(notmuch_status_t::NOTMUCH_STATUS_UPGRADE_REQUIRED),
        Err(Error::NotmuchError(Status::UpgradeRequired))
    ));
}
