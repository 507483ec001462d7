use vstd::prelude::*;

use crate::error::{Error, Result};
use crate::registry::{derive_error, derive_result, open_error, wf, Handle, Kind, Mode, Registry, fresh_node};
use crate::status::{notmuch_status_t, status_of, Status};

verus! {

/// The address of a native database, as the C interface returned it.
#[derive(Debug, Clone, Copy)]
pub struct DatabasePtr(pub usize);

#[derive(Debug, Clone, Copy)]
pub struct DirectoryPtr(pub usize);

#[derive(Debug, Clone, Copy)]
pub struct QueryPtr(pub usize);

#[derive(Debug, Clone, Copy)]
pub struct ThreadsPtr(pub usize);

#[derive(Debug, Clone, Copy)]
pub struct ThreadPtr(pub usize);

#[derive(Debug, Clone, Copy)]
pub struct MessagesPtr(pub usize);

#[derive(Debug, Clone, Copy)]
pub struct MessagePtr(pub usize);

#[derive(Debug, Clone, Copy)]
pub struct TagsPtr(pub usize);

#[derive(Debug, Clone, Copy)]
pub struct FilenamesPtr(pub usize);

#[derive(Debug, Clone, Copy)]
pub struct ConfigListPtr(pub usize);

#[derive(Debug, Clone, Copy)]
pub struct ConfigValuesPtr(pub usize);

#[derive(Debug, Clone, Copy)]
pub struct ConfigPairsPtr(pub usize);

#[derive(Debug, Clone, Copy)]
pub struct MessagePropertiesPtr(pub usize);

#[derive(Debug, Clone, Copy)]
pub struct IndexOptsPtr(pub usize);

/// Whether a native call that hands back a new object produced one: it
/// succeeded and the pointer is not null.
pub open spec fn yields(status: notmuch_status_t, native: usize) -> bool {
    status == notmuch_status_t::NOTMUCH_STATUS_SUCCESS && native != 0
}

/// The error for a call that produced nothing: its status, or a null
/// pointer where it reported success.
pub open spec fn failure_of(status: notmuch_status_t) -> Error {
    if status == notmuch_status_t::NOTMUCH_STATUS_SUCCESS {
        Error::NotmuchError(Status::NullPointer)
    } else {
        Error::NotmuchError(status_of(status))
    }
}

/// Registers the object that a native call derived from `owner`, kept alive
/// by it; or the call's failure.
pub fn derive_from(registry: &mut Registry, status: notmuch_status_t, owner: &Handle, kind: Kind, native: usize) -> (r: Result<Handle>)
    requires
        wf(old(registry)@),
        yields(status, native) ==> derive_error(old(registry)@, owner.id as int, Mode::Shared, kind, native) is None,
    ensures
        wf(final(registry)@),
        match r {
            Ok(h) => yields(status, native) && h.id == old(registry)@.len() && final(registry)@
                == derive_result(old(registry)@, owner.id as int, Mode::Shared, kind, native),
            Err(e) => !yields(status, native) && e == failure_of(status) && final(registry)@ == old(
                registry,
            )@,
        },
{
    if status.is_err() {
        return Err(Error::NotmuchError(Status::from(status)));
    }
    if native == 0 {
        return Err(Error::NotmuchError(Status::NullPointer));
    }
    Ok(registry.attach(owner, Mode::Shared, kind, native))
}

/// Like `derive_from`, for a call whose null result means "there is none".
pub fn derive_optional(registry: &mut Registry, status: notmuch_status_t, owner: &Handle, kind: Kind, native: usize) -> (r: Result<Option<Handle>>)
    requires
        wf(old(registry)@),
        yields(status, native) ==> derive_error(old(registry)@, owner.id as int, Mode::Shared, kind, native) is None,
    ensures
        wf(final(registry)@),
        match r {
            Ok(Some(h)) => yields(status, native) && h.id == old(registry)@.len() && final(registry)@
                == derive_result(old(registry)@, owner.id as int, Mode::Shared, kind, native),
            Ok(None) => status == notmuch_status_t::NOTMUCH_STATUS_SUCCESS && native == 0 && final(registry)@ == old(registry)@,
            Err(e) => status != notmuch_status_t::NOTMUCH_STATUS_SUCCESS && e == Error::NotmuchError(status_of(status)) && final(registry)@ == old(
                registry,
            )@,
        },
{
    if status.is_err() {
        return Err(Error::NotmuchError(Status::from(status)));
    }
    if native == 0 {
        return Ok(None);
    }
    Ok(Some(registry.attach(owner, Mode::Shared, kind, native)))
}

/// Registers a database that a native call opened or created; or the
/// call's failure.
pub fn open_root(registry: &mut Registry, status: notmuch_status_t, native: usize) -> (r: Result<Handle>)
    requires
        wf(old(registry)@),
        yields(status, native) ==> open_error(old(registry)@, native) is None,
    ensures
        wf(final(registry)@),
        match r {
            Ok(h) => yields(status, native) && h.id == old(registry)@.len() && final(registry)@
                == old(registry)@.push(fresh_node(Kind::Database, native, None, Mode::Owned)),
            Err(e) => !yields(status, native) && e == failure_of(status) && final(registry)@ == old(
                registry,
            )@,
        },
{
    if status.is_err() {
        return Err(Error::NotmuchError(Status::from(status)));
    }
    if native == 0 {
        return Err(Error::NotmuchError(Status::NullPointer));
    }
    Ok(registry.add_root(native))
}

} // verus!
