use notmuch::{notmuch_status_t, DatabaseMode, DecryptionPolicy, Error, Exclude, MessageFlag, Sort, Status};

#[test]
fn codes_round_trip() {
    for code in 0..14 {
        let s = notmuch_status_t::from_code(code).unwrap();
        assert_eq!(s.code(), code);
    }
    assert_eq!(notmuch_status_t::from_code(14), None);
    assert_eq!(notmuch_status_t::from_code(-1), None);
    assert_eq!(
        notmuch_status_t::from_code(6),
        Some(notmuch_status_t::NOTMUCH_STATUS_DUPLICATE_MESSAGE_ID)
    );
}

#[test]
fn success_is_the_only_ok() {
    assert!(notmuch_status_t::NOTMUCH_STATUS_SUCCESS.is_ok());
    assert!(!notmuch_status_t::NOTMUCH_STATUS_SUCCESS.is_err());
    assert!(notmuch_status_t::NOTMUCH_STATUS_TAG_TOO_LONG.is_err());
    assert!(notmuch_status_t::NOTMUCH_STATUS_SUCCESS.as_result().is_ok());
    match notmuch_status_t::NOTMUCH_STATUS_TAG_TOO_LONG.as_result() {
        Err(Error::NotmuchError(Status::TagTooLong)) => {}
        other => panic!("unexpected {:?}", other),
    }
}

#[test]
fn names_convert_both_ways() {
    assert_eq!(
        Status::from(notmuch_status_t::NOTMUCH_STATUS_UPGRADE_REQUIRED),
        Status::UpgradeRequired
    );
    assert_eq!(
        notmuch_status_t::from(Status::UnbalancedAtomic),
        notmuch_status_t::NOTMUCH_STATUS_UNBALANCED_ATOMIC
    );
    assert!(matches!(Error::from(Status::NullPointer), Error::NotmuchError(Status::NullPointer)));
}

#[test]
fn enumeration_codes() {
    assert_eq!(DatabaseMode::ReadWrite.code(), 1);
    assert_eq!(Sort::from_code(2), Some(Sort::MessageID));
    assert_eq!(Sort::from_code(4), None);
    assert_eq!(Exclude::All.code(), 3);
    assert_eq!(MessageFlag::from_code(2), Some(MessageFlag::GhostMessage));
    assert_eq!(DecryptionPolicy::from_code(3), Some(DecryptionPolicy::NoStash));
    assert_eq!(DecryptionPolicy::from_code(-1), None);
}
