use notmuch::{Cursor, Kind, Messages, MessagePtr, MessagesPtr, Mode, Registry, Tags, TagsPtr};

#[test]
fn cursor_exhaustion_is_idempotent() {
    let mut c = Cursor::new();
    assert_eq!(c.next(Some(1)), Some(1));
    assert_eq!(c.next(Some(2)), Some(2));
    assert_eq!(c.next(None::<i32>), None);
    assert!(c.exhausted());
    assert_eq!(c.next(Some(3)), None);
    assert_eq!(c.next(None::<i32>), None);
}

#[test]
fn tags_copy_out_until_end() {
    let mut r = Registry::new();
    let d = r.open(1).unwrap();
    let mut tags = Tags::from_ptr(&mut r, TagsPtr(2), &d, Mode::Shared);
    let native = vec!["inbox".to_string(), "unread".to_string()];
    let mut seen = Vec::new();
    let mut pos = 0;
    while let Some(t) = tags.next(native.get(pos).cloned()) {
        seen.push(t);
        pos += 1;
    }
    assert_eq!(seen, native);
    assert_eq!(tags.next(Some("late".to_string())), None);
}

#[test]
fn messages_yield_registered_messages() {
    let mut r = Registry::new();
    let d = r.open(1).unwrap();
    let q = r.derive(&d, Mode::Shared, Kind::Query, 2).unwrap();
    let mut ms = Messages::from_ptr(&mut r, MessagesPtr(3), &q, Mode::Shared);
    let m = ms.next(&mut r, Some(MessagePtr(4))).unwrap();
    assert_eq!(m.handle.id, 3);
    let node = r.node(&m.handle).unwrap();
    assert_eq!(node.kind, Kind::Message);
    assert_eq!(node.parent, Some(2));
    assert!(ms.next(&mut r, None).is_none());
    assert!(ms.next(&mut r, Some(MessagePtr(5))).is_none());
    assert!(!r.is_registered(5));
}

#[test]
fn collect_tags_consumes_messages() {
    let mut r = Registry::new();
    let d = r.open(1).unwrap();
    let q = r.derive(&d, Mode::Shared, Kind::Query, 2).unwrap();
    let mut ms = Messages::from_ptr(&mut r, MessagesPtr(3), &q, Mode::Shared);
    let tags = ms.collect_tags(&mut r, TagsPtr(6)).unwrap();
    assert_eq!(r.node(&tags.handle).unwrap().kind, Kind::Tags);
    assert!(ms.next(&mut r, Some(MessagePtr(4))).is_none());
}
