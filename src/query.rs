use vstd::prelude::*;

use crate::cursor::Cursor;
use crate::database::Database;
use crate::error::{Error, Result};
use crate::messages::Messages;
use crate::native::{derive_from, failure_of, yields, MessagesPtr, QueryPtr, ThreadsPtr};
use crate::registry::{derive_error, derive_result, wf, Handle, Kind, Mode, Registry};
use crate::status::{notmuch_status_t, status_of};
use crate::threads::Threads;

verus! {

/// A parsed search expression bound to a database.
#[derive(Debug)]
pub struct Query {
    pub handle: Handle,
}

/// A count that a native call reported, or its failure.
pub open spec fn counted(status: notmuch_status_t, count: u32) -> Result<u32> {
    if status == notmuch_status_t::NOTMUCH_STATUS_SUCCESS {
        Ok(count)
    } else {
        Err(Error::NotmuchError(status_of(status)))
    }
}

/// Gives a count that a native call reported, or its failure.
pub fn count_result(status: notmuch_status_t, count: u32) -> (r: Result<u32>)
    ensures
        r == counted(status, count),
{
    match status.as_result() {
        Ok(()) => Ok(count),
        Err(e) => Err(e),
    }
}

impl Query {
    /// Wraps a native object derived from `owner`, related to it as `mode` says.
    pub fn from_ptr(registry: &mut Registry, ptr: QueryPtr, owner: &Handle, mode: Mode) -> (r: Query)
        requires
            wf(old(registry)@),
            derive_error(old(registry)@, owner.id as int, mode, Kind::Query, ptr.0) is None,
        ensures
            wf(final(registry)@),
            r.handle.id == old(registry)@.len(),
            final(registry)@ == derive_result(old(registry)@, owner.id as int, mode, Kind::Query, ptr.0),
    {
        let h = registry.attach(owner, mode, Kind::Query, ptr.0);
        Query { handle: h }
    }

    /// The query that `notmuch_query_create` made on the database.
    pub fn create(registry: &mut Registry, database: &Database, ptr: QueryPtr) -> (r: Result<Query>)
        requires
            wf(old(registry)@),
            ptr.0 != 0 ==> derive_error(old(registry)@, database.handle.id as int, Mode::Shared, Kind::Query, ptr.0) is None,
        ensures
            wf(final(registry)@),
            match r {
                Ok(c) => ptr.0 != 0 && c.handle.id == old(registry)@.len() && final(registry)@
                    == derive_result(old(registry)@, database.handle.id as int, Mode::Shared, Kind::Query, ptr.0),
                Err(e) => ptr.0 == 0 && e == failure_of(notmuch_status_t::NOTMUCH_STATUS_SUCCESS)
                    && final(registry)@ == old(registry)@,
            },
    {
        database.create_query(registry, ptr)
    }

    /// The messages that the query matches.
    pub fn search_messages(&self, registry: &mut Registry, status: notmuch_status_t, ptr: MessagesPtr) -> (r: Result<Messages>)
        requires
            wf(old(registry)@),
            yields(status, ptr.0) ==> derive_error(old(registry)@, self.handle.id as int, Mode::Shared, Kind::Messages, ptr.0) is None,
        ensures
            wf(final(registry)@),
            match r {
                Ok(c) => yields(status, ptr.0) && c.handle.id == old(registry)@.len()
                    && final(registry)@ == derive_result(old(registry)@, self.handle.id as int, Mode::Shared, Kind::Messages, ptr.0) && !c.exhausted(),
                Err(e) => !yields(status, ptr.0) && e == failure_of(status) && final(registry)@ == old(registry)@,
            },
    {
        match derive_from(registry, status, &self.handle, Kind::Messages, ptr.0) {
            Ok(h) => Ok(Messages { handle: h, cursor: Cursor::new() }),
            Err(e) => Err(e),
        }
    }

    /// The threads that the query matches.
    pub fn search_threads(&self, registry: &mut Registry, status: notmuch_status_t, ptr: ThreadsPtr) -> (r: Result<Threads>)
        requires
            wf(old(registry)@),
            yields(status, ptr.0) ==> derive_error(old(registry)@, self.handle.id as int, Mode::Shared, Kind::Threads, ptr.0) is None,
        ensures
            wf(final(registry)@),
            match r {
                Ok(c) => yields(status, ptr.0) && c.handle.id == old(registry)@.len()
                    && final(registry)@ == derive_result(old(registry)@, self.handle.id as int, Mode::Shared, Kind::Threads, ptr.0) && !c.exhausted(),
                Err(e) => !yields(status, ptr.0) && e == failure_of(status) && final(registry)@ == old(registry)@,
            },
    {
        match derive_from(registry, status, &self.handle, Kind::Threads, ptr.0) {
            Ok(h) => Ok(Threads { handle: h, cursor: Cursor::new() }),
            Err(e) => Err(e),
        }
    }

    /// The number of messages that the query matches.
    pub fn count_messages(&self, status: notmuch_status_t, count: u32) -> (r: Result<u32>)
        ensures
            r == counted(status, count),
    {
        count_result(status, count)
    }

    /// The number of threads that the query matches.
    pub fn count_threads(&self, status: notmuch_status_t, count: u32) -> (r: Result<u32>)
        ensures
            r == counted(status, count),
    {
        count_result(status, count)
    }
}

} // verus!
