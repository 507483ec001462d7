use vstd::prelude::*;

use crate::error::{Error, Result};

verus! {

/// The status codes that notmuch's C functions return, in the order of the
/// C enumeration: the code of a variant is its position.
#[allow(non_camel_case_types)]
#[derive(Debug, Clone, Copy, PartialEq, Eq, Structural)]
pub enum notmuch_status_t {
    NOTMUCH_STATUS_SUCCESS,
    NOTMUCH_STATUS_OUT_OF_MEMORY,
    NOTMUCH_STATUS_READ_ONLY_DATABASE,
    NOTMUCH_STATUS_XAPIAN_EXCEPTION,
    NOTMUCH_STATUS_FILE_ERROR,
    NOTMUCH_STATUS_FILE_NOT_EMAIL,
    NOTMUCH_STATUS_DUPLICATE_MESSAGE_ID,
    NOTMUCH_STATUS_NULL_POINTER,
    NOTMUCH_STATUS_TAG_TOO_LONG,
    NOTMUCH_STATUS_UNBALANCED_FREEZE_THAW,
    NOTMUCH_STATUS_UNBALANCED_ATOMIC,
    NOTMUCH_STATUS_UNSUPPORTED_OPERATION,
    NOTMUCH_STATUS_UPGRADE_REQUIRED,
    NOTMUCH_STATUS_LAST_STATUS,
}

/// The same statuses under Rust names.
#[derive(Debug, Clone, Copy, PartialEq, Eq, Structural)]
pub enum Status {
    Success,
    OutOfMemory,
    ReadOnlyDatabase,
    XapianException,
    FileError,
    FileNotEmail,
    DuplicateMessageID,
    NullPointer,
    TagTooLong,
    UnbalancedFreezeThaw,
    UnbalancedAtomic,
    UnsupportedOperation,
    UpgradeRequired,
    LastStatus,
}

/// The C code of each status.
pub open spec fn status_code(s: notmuch_status_t) -> int {
    match s {
        notmuch_status_t::NOTMUCH_STATUS_SUCCESS => 0,
        notmuch_status_t::NOTMUCH_STATUS_OUT_OF_MEMORY => 1,
        notmuch_status_t::NOTMUCH_STATUS_READ_ONLY_DATABASE => 2,
        notmuch_status_t::NOTMUCH_STATUS_XAPIAN_EXCEPTION => 3,
        notmuch_status_t::NOTMUCH_STATUS_FILE_ERROR => 4,
        notmuch_status_t::NOTMUCH_STATUS_FILE_NOT_EMAIL => 5,
        notmuch_status_t::NOTMUCH_STATUS_DUPLICATE_MESSAGE_ID => 6,
        notmuch_status_t::NOTMUCH_STATUS_NULL_POINTER => 7,
        notmuch_status_t::NOTMUCH_STATUS_TAG_TOO_LONG => 8,
        notmuch_status_t::NOTMUCH_STATUS_UNBALANCED_FREEZE_THAW => 9,
        notmuch_status_t::NOTMUCH_STATUS_UNBALANCED_ATOMIC => 10,
        notmuch_status_t::NOTMUCH_STATUS_UNSUPPORTED_OPERATION => 11,
        notmuch_status_t::NOTMUCH_STATUS_UPGRADE_REQUIRED => 12,
        notmuch_status_t::NOTMUCH_STATUS_LAST_STATUS => 13,
    }
}

/// The Rust name of each C status.
pub open spec fn status_of(s: notmuch_status_t) -> Status {
    match s {
        notmuch_status_t::NOTMUCH_STATUS_SUCCESS => Status::Success,
        notmuch_status_t::NOTMUCH_STATUS_OUT_OF_MEMORY => Status::OutOfMemory,
        notmuch_status_t::NOTMUCH_STATUS_READ_ONLY_DATABASE => Status::ReadOnlyDatabase,
        notmuch_status_t::NOTMUCH_STATUS_XAPIAN_EXCEPTION => Status::XapianException,
        notmuch_status_t::NOTMUCH_STATUS_FILE_ERROR => Status::FileError,
        notmuch_status_t::NOTMUCH_STATUS_FILE_NOT_EMAIL => Status::FileNotEmail,
        notmuch_status_t::NOTMUCH_STATUS_DUPLICATE_MESSAGE_ID => Status::DuplicateMessageID,
        notmuch_status_t::NOTMUCH_STATUS_NULL_POINTER => Status::NullPointer,
        notmuch_status_t::NOTMUCH_STATUS_TAG_TOO_LONG => Status::TagTooLong,
        notmuch_status_t::NOTMUCH_STATUS_UNBALANCED_FREEZE_THAW => Status::UnbalancedFreezeThaw,
        notmuch_status_t::NOTMUCH_STATUS_UNBALANCED_ATOMIC => Status::UnbalancedAtomic,
        notmuch_status_t::NOTMUCH_STATUS_UNSUPPORTED_OPERATION => Status::UnsupportedOperation,
        notmuch_status_t::NOTMUCH_STATUS_UPGRADE_REQUIRED => Status::UpgradeRequired,
        notmuch_status_t::NOTMUCH_STATUS_LAST_STATUS => Status::LastStatus,
    }
}

/// The C status of each Rust name.
pub open spec fn native_of(s: Status) -> notmuch_status_t {
    match s {
        Status::Success => notmuch_status_t::NOTMUCH_STATUS_SUCCESS,
        Status::OutOfMemory => notmuch_status_t::NOTMUCH_STATUS_OUT_OF_MEMORY,
        Status::ReadOnlyDatabase => notmuch_status_t::NOTMUCH_STATUS_READ_ONLY_DATABASE,
        Status::XapianException => notmuch_status_t::NOTMUCH_STATUS_XAPIAN_EXCEPTION,
        Status::FileError => notmuch_status_t::NOTMUCH_STATUS_FILE_ERROR,
        Status::FileNotEmail => notmuch_status_t::NOTMUCH_STATUS_FILE_NOT_EMAIL,
        Status::DuplicateMessageID => notmuch_status_t::NOTMUCH_STATUS_DUPLICATE_MESSAGE_ID,
        Status::NullPointer => notmuch_status_t::NOTMUCH_STATUS_NULL_POINTER,
        Status::TagTooLong => notmuch_status_t::NOTMUCH_STATUS_TAG_TOO_LONG,
        Status::UnbalancedFreezeThaw => notmuch_status_t::NOTMUCH_STATUS_UNBALANCED_FREEZE_THAW,
        Status::UnbalancedAtomic => notmuch_status_t::NOTMUCH_STATUS_UNBALANCED_ATOMIC,
        Status::UnsupportedOperation => notmuch_status_t::NOTMUCH_STATUS_UNSUPPORTED_OPERATION,
        Status::UpgradeRequired => notmuch_status_t::NOTMUCH_STATUS_UPGRADE_REQUIRED,
        Status::LastStatus => notmuch_status_t::NOTMUCH_STATUS_LAST_STATUS,
    }
}

impl From<notmuch_status_t> for Status {
    fn from(t: notmuch_status_t) -> (r: Status)
        ensures
            r == status_of(t),
    {
        match t {
            notmuch_status_t::NOTMUCH_STATUS_SUCCESS => Status::Success,
            notmuch_status_t::NOTMUCH_STATUS_OUT_OF_MEMORY => Status::OutOfMemory,
            notmuch_status_t::NOTMUCH_STATUS_READ_ONLY_DATABASE => Status::ReadOnlyDatabase,
            notmuch_status_t::NOTMUCH_STATUS_XAPIAN_EXCEPTION => Status::XapianException,
            notmuch_status_t::NOTMUCH_STATUS_FILE_ERROR => Status::FileError,
            notmuch_status_t::NOTMUCH_STATUS_FILE_NOT_EMAIL => Status::FileNotEmail,
            notmuch_status_t::NOTMUCH_STATUS_DUPLICATE_MESSAGE_ID => Status::DuplicateMessageID,
            notmuch_status_t::NOTMUCH_STATUS_NULL_POINTER => Status::NullPointer,
            notmuch_status_t::NOTMUCH_STATUS_TAG_TOO_LONG => Status::TagTooLong,
            notmuch_status_t::NOTMUCH_STATUS_UNBALANCED_FREEZE_THAW => Status::UnbalancedFreezeThaw,
            notmuch_status_t::NOTMUCH_STATUS_UNBALANCED_ATOMIC => Status::UnbalancedAtomic,
            notmuch_status_t::NOTMUCH_STATUS_UNSUPPORTED_OPERATION => Status::UnsupportedOperation,
            notmuch_status_t::NOTMUCH_STATUS_UPGRADE_REQUIRED => Status::UpgradeRequired,
            notmuch_status_t::NOTMUCH_STATUS_LAST_STATUS => Status::LastStatus,
        }
    }
}

impl vstd::std_specs::convert::FromSpecImpl<notmuch_status_t> for Status {
    open spec fn obeys_from_spec() -> bool {
        true
    }

    open spec fn from_spec(t: notmuch_status_t) -> Status {
        status_of(t)
    }
}

impl From<Status> for notmuch_status_t {
    fn from(t: Status) -> (r: notmuch_status_t)
        ensures
            r == native_of(t),
    {
        match t {
            Status::Success => notmuch_status_t::NOTMUCH_STATUS_SUCCESS,
            Status::OutOfMemory => notmuch_status_t::NOTMUCH_STATUS_OUT_OF_MEMORY,
            Status::ReadOnlyDatabase => notmuch_status_t::NOTMUCH_STATUS_READ_ONLY_DATABASE,
            Status::XapianException => notmuch_status_t::NOTMUCH_STATUS_XAPIAN_EXCEPTION,
            Status::FileError => notmuch_status_t::NOTMUCH_STATUS_FILE_ERROR,
            Status::FileNotEmail => notmuch_status_t::NOTMUCH_STATUS_FILE_NOT_EMAIL,
            Status::DuplicateMessageID => notmuch_status_t::NOTMUCH_STATUS_DUPLICATE_MESSAGE_ID,
            Status::NullPointer => notmuch_status_t::NOTMUCH_STATUS_NULL_POINTER,
            Status::TagTooLong => notmuch_status_t::NOTMUCH_STATUS_TAG_TOO_LONG,
            Status::UnbalancedFreezeThaw => notmuch_status_t::NOTMUCH_STATUS_UNBALANCED_FREEZE_THAW,
            Status::UnbalancedAtomic => notmuch_status_t::NOTMUCH_STATUS_UNBALANCED_ATOMIC,
            Status::UnsupportedOperation => notmuch_status_t::NOTMUCH_STATUS_UNSUPPORTED_OPERATION,
            Status::UpgradeRequired => notmuch_status_t::NOTMUCH_STATUS_UPGRADE_REQUIRED,
            Status::LastStatus => notmuch_status_t::NOTMUCH_STATUS_LAST_STATUS,
        }
    }
}

impl vstd::std_specs::convert::FromSpecImpl<Status> for notmuch_status_t {
    open spec fn obeys_from_spec() -> bool {
        true
    }

    open spec fn from_spec(t: Status) -> notmuch_status_t {
        native_of(t)
    }
}

/// `Ok` on success; otherwise the status, named in Rust, as an error.
pub open spec fn outcome(s: notmuch_status_t) -> Result<()> {
    if s == notmuch_status_t::NOTMUCH_STATUS_SUCCESS {
        Ok(())
    } else {
        Err(Error::NotmuchError(status_of(s)))
    }
}

impl notmuch_status_t {
    /// The status whose C code is `code`; `None` for a code outside the enumeration.
    pub fn from_code(code: i32) -> (r: Option<notmuch_status_t>)
        ensures
            match r {
                Some(s) => status_code(s) == code,
                None => code < 0 || code > 13,
            },
    {
        match code {
            0 => Some(notmuch_status_t::NOTMUCH_STATUS_SUCCESS),
            1 => Some(notmuch_status_t::NOTMUCH_STATUS_OUT_OF_MEMORY),
            2 => Some(notmuch_status_t::NOTMUCH_STATUS_READ_ONLY_DATABASE),
            3 => Some(notmuch_status_t::NOTMUCH_STATUS_XAPIAN_EXCEPTION),
            4 => Some(notmuch_status_t::NOTMUCH_STATUS_FILE_ERROR),
            5 => Some(notmuch_status_t::NOTMUCH_STATUS_FILE_NOT_EMAIL),
            6 => Some(notmuch_status_t::NOTMUCH_STATUS_DUPLICATE_MESSAGE_ID),
            7 => Some(notmuch_status_t::NOTMUCH_STATUS_NULL_POINTER),
            8 => Some(notmuch_status_t::NOTMUCH_STATUS_TAG_TOO_LONG),
            9 => Some(notmuch_status_t::NOTMUCH_STATUS_UNBALANCED_FREEZE_THAW),
            10 => Some(notmuch_status_t::NOTMUCH_STATUS_UNBALANCED_ATOMIC),
            11 => Some(notmuch_status_t::NOTMUCH_STATUS_UNSUPPORTED_OPERATION),
            12 => Some(notmuch_status_t::NOTMUCH_STATUS_UPGRADE_REQUIRED),
            13 => Some(notmuch_status_t::NOTMUCH_STATUS_LAST_STATUS),
            _ => None,
        }
    }

    /// The C code of this status.
    pub fn code(self) -> (r: i32)
        ensures
            r == status_code(self),
    {
        match self {
            notmuch_status_t::NOTMUCH_STATUS_SUCCESS => 0,
            notmuch_status_t::NOTMUCH_STATUS_OUT_OF_MEMORY => 1,
            notmuch_status_t::NOTMUCH_STATUS_READ_ONLY_DATABASE => 2,
            notmuch_status_t::NOTMUCH_STATUS_XAPIAN_EXCEPTION => 3,
            notmuch_status_t::NOTMUCH_STATUS_FILE_ERROR => 4,
            notmuch_status_t::NOTMUCH_STATUS_FILE_NOT_EMAIL => 5,
            notmuch_status_t::NOTMUCH_STATUS_DUPLICATE_MESSAGE_ID => 6,
            notmuch_status_t::NOTMUCH_STATUS_NULL_POINTER => 7,
            notmuch_status_t::NOTMUCH_STATUS_TAG_TOO_LONG => 8,
            notmuch_status_t::NOTMUCH_STATUS_UNBALANCED_FREEZE_THAW => 9,
            notmuch_status_t::NOTMUCH_STATUS_UNBALANCED_ATOMIC => 10,
            notmuch_status_t::NOTMUCH_STATUS_UNSUPPORTED_OPERATION => 11,
            notmuch_status_t::NOTMUCH_STATUS_UPGRADE_REQUIRED => 12,
            notmuch_status_t::NOTMUCH_STATUS_LAST_STATUS => 13,
        }
    }

    pub fn is_ok(self) -> (r: bool)
        ensures
            r == (self == notmuch_status_t::NOTMUCH_STATUS_SUCCESS),
    {
        match self {
            notmuch_status_t::NOTMUCH_STATUS_SUCCESS => true,
            _ => false,
        }
    }

    pub fn is_err(self) -> (r: bool)
        ensures
            r == (self != notmuch_status_t::NOTMUCH_STATUS_SUCCESS),
    {
        !self.is_ok()
    }

    pub fn as_result(self) -> (r: Result<()>)
        ensures
            r == outcome(self),
    {
        if self.is_ok() {
            Ok(())
        } else {
            Err(Error::NotmuchError(Status::from(self)))
        }
    }
}

} // verus!
