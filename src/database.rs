use vstd::prelude::*;
use vstd::string::StringSliceAdditionalSpecFns;

use std::cmp::Ordering;

use crate::config_list::ConfigList;
use crate::cursor::Cursor;
use crate::directory::Directory;
use crate::error::{Error, Result};
use crate::index_opts::IndexOpts;
use crate::message::Message;
use crate::native::{
    derive_from, derive_optional, failure_of, open_root, yields, ConfigListPtr, DatabasePtr,
    DirectoryPtr, IndexOptsPtr, MessagePtr, QueryPtr, TagsPtr,
};
use crate::query::Query;
use crate::registry::{
    apply, derive_error, derive_result, fresh_node, open_error, usable, wf, Handle, Kind, Mode, Op,
    Registry,
};
use crate::section::{enter_section, leave_section};
use crate::status::{notmuch_status_t, outcome, status_of, Status};
use crate::tags::Tags;

verus! {

/// A database's revision: a counter that grows with each committed change,
/// and the identifier of the database it counts for.
#[derive(Debug, Clone)]
pub struct Revision {
    pub revision: u64,
    pub uuid: String,
}

/// Revisions compare only within one database.
pub open spec fn revision_cmp(a: Revision, b: Revision) -> Option<Ordering> {
    if a.uuid@ != b.uuid@ {
        None
    } else if a.revision < b.revision {
        Some(Ordering::Less)
    } else if a.revision > b.revision {
        Some(Ordering::Greater)
    } else {
        Some(Ordering::Equal)
    }
}

impl PartialEq for Revision {
    fn eq(&self, other: &Revision) -> (r: bool)
        ensures
            r == (self.uuid@ == other.uuid@ && self.revision == other.revision),
    {
        self.uuid == other.uuid && self.revision == other.revision
    }
}

impl vstd::std_specs::cmp::PartialEqSpecImpl for Revision {
    open spec fn obeys_eq_spec() -> bool {
        true
    }

    open spec fn eq_spec(&self, other: &Revision) -> bool {
        self.uuid@ == other.uuid@ && self.revision == other.revision
    }
}

impl PartialOrd for Revision {
    fn partial_cmp(&self, other: &Revision) -> (r: Option<Ordering>)
        ensures
            r == revision_cmp(*self, *other),
    {
        if self.uuid != other.uuid {
            None
        } else if self.revision < other.revision {
            Some(Ordering::Less)
        } else if self.revision > other.revision {
            Some(Ordering::Greater)
        } else {
            Some(Ordering::Equal)
        }
    }
}

impl vstd::std_specs::cmp::PartialOrdSpecImpl for Revision {
    open spec fn obeys_partial_cmp_spec() -> bool {
        true
    }

    open spec fn partial_cmp_spec(&self, other: &Revision) -> Option<Ordering> {
        revision_cmp(*self, *other)
    }
}

/// The argument for a native call that takes a file path: the path as a C
/// string. A path that is not valid UTF-8 (given as `None`) or that holds a
/// NUL byte is a file error.
pub fn path_argument(path: Option<&str>) -> (r: Result<Vec<u8>>)
    ensures
        match path {
            None => r == Err::<Vec<u8>, Error>(Error::NotmuchError(Status::FileError)),
            Some(p) => match crate::cstr::c_string_of(p.spec_bytes()) {
                Some(b) => r matches Ok(v) && v@ == b,
                None => r == Err::<Vec<u8>, Error>(Error::NotmuchError(Status::FileError)),
            },
        },
{
    match path {
        None => Err(Error::NotmuchError(Status::FileError)),
        Some(p) => match crate::cstr::c_string(p) {
            Some(v) => Ok(v),
            None => Err(Error::NotmuchError(Status::FileError)),
        },
    }
}

/// The root of the resource tree: one open notmuch database.
#[derive(Debug)]
pub struct Database {
    pub handle: Handle,
}

impl Database {
    /// The database that `notmuch_database_create` created.
    pub fn create(registry: &mut Registry, status: notmuch_status_t, ptr: DatabasePtr) -> (r: Result<Database>)
        requires
            wf(old(registry)@),
            yields(status, ptr.0) ==> open_error(old(registry)@, ptr.0) is None,
        ensures
            wf(final(registry)@),
            match r {
                Ok(d) => yields(status, ptr.0) && d.handle.id == old(registry)@.len() && final(registry)@
                    == old(registry)@.push(fresh_node(Kind::Database, ptr.0, None, Mode::Owned)),
                Err(e) => !yields(status, ptr.0) && e == failure_of(status) && final(registry)@ == old(registry)@,
            },
    {
        match open_root(registry, status, ptr.0) {
            Ok(h) => Ok(Database { handle: h }),
            Err(e) => Err(e),
        }
    }

    /// The database that `notmuch_database_open` opened.
    pub fn open(registry: &mut Registry, status: notmuch_status_t, ptr: DatabasePtr) -> (r: Result<Database>)
        requires
            wf(old(registry)@),
            yields(status, ptr.0) ==> open_error(old(registry)@, ptr.0) is None,
        ensures
            wf(final(registry)@),
            match r {
                Ok(d) => yields(status, ptr.0) && d.handle.id == old(registry)@.len() && final(registry)@
                    == old(registry)@.push(fresh_node(Kind::Database, ptr.0, None, Mode::Owned)),
                Err(e) => !yields(status, ptr.0) && e == failure_of(status) && final(registry)@ == old(registry)@,
            },
    {
        match open_root(registry, status, ptr.0) {
            Ok(h) => Ok(Database { handle: h }),
            Err(e) => Err(e),
        }
    }

    /// The database that `notmuch_database_open_with_config` opened.
    pub fn open_with_config(registry: &mut Registry, status: notmuch_status_t, ptr: DatabasePtr) -> (r: Result<Database>)
        requires
            wf(old(registry)@),
            yields(status, ptr.0) ==> open_error(old(registry)@, ptr.0) is None,
        ensures
            wf(final(registry)@),
            match r {
                Ok(d) => yields(status, ptr.0) && d.handle.id == old(registry)@.len() && final(registry)@
                    == old(registry)@.push(fresh_node(Kind::Database, ptr.0, None, Mode::Owned)),
                Err(e) => !yields(status, ptr.0) && e == failure_of(status) && final(registry)@ == old(registry)@,
            },
    {
        match open_root(registry, status, ptr.0) {
            Ok(h) => Ok(Database { handle: h }),
            Err(e) => Err(e),
        }
    }

    /// The outcome of `notmuch_database_close`.
    pub fn close(&self, status: notmuch_status_t) -> (r: Result<()>)
        ensures
            r == outcome(status),
    {
        status.as_result()
    }

    /// The outcome of `notmuch_database_compact`, called without a progress callback.
    pub fn compact(status: notmuch_status_t) -> (r: Result<()>)
        ensures
            r == outcome(status),
    {
        status.as_result()
    }

    /// The outcome of `notmuch_database_compact`, called with a progress callback.
    pub fn compact_with_status(status: notmuch_status_t) -> (r: Result<()>)
        ensures
            r == outcome(status),
    {
        status.as_result()
    }

    /// The outcome of `notmuch_database_upgrade`.
    pub fn upgrade(&self, status: notmuch_status_t) -> (r: Result<()>)
        ensures
            r == outcome(status),
    {
        status.as_result()
    }

    /// The directory that `notmuch_database_get_directory` found; `None` where the database does not know it.
    pub fn directory(&self, registry: &mut Registry, status: notmuch_status_t, ptr: DirectoryPtr) -> (r: Result<Option<Directory>>)
        requires
            wf(old(registry)@),
            yields(status, ptr.0) ==> derive_error(old(registry)@, self.handle.id as int, Mode::Shared, Kind::Directory, ptr.0) is None,
        ensures
            wf(final(registry)@),
            match r {
                Ok(Some(c)) => yields(status, ptr.0) && c.handle.id == old(registry)@.len()
                    && final(registry)@ == derive_result(old(registry)@, self.handle.id as int, Mode::Shared, Kind::Directory, ptr.0),
                Ok(None) => status == notmuch_status_t::NOTMUCH_STATUS_SUCCESS && ptr.0 == 0
                    && final(registry)@ == old(registry)@,
                Err(e) => status != notmuch_status_t::NOTMUCH_STATUS_SUCCESS
                    && e == Error::NotmuchError(status_of(status)) && final(registry)@ == old(registry)@,
            },
    {
        match derive_optional(registry, status, &self.handle, Kind::Directory, ptr.0) {
            Ok(Some(h)) => Ok(Some(Directory { handle: h })),
            Ok(None) => Ok(None),
            Err(e) => Err(e),
        }
    }

    /// The configuration entries under a prefix.
    pub fn config_list(&self, registry: &mut Registry, status: notmuch_status_t, ptr: ConfigListPtr) -> (r: Result<ConfigList>)
        requires
            wf(old(registry)@),
            yields(status, ptr.0) ==> derive_error(old(registry)@, self.handle.id as int, Mode::Shared, Kind::ConfigList, ptr.0) is None,
        ensures
            wf(final(registry)@),
            match r {
                Ok(c) => yields(status, ptr.0) && c.handle.id == old(registry)@.len()
                    && final(registry)@ == derive_result(old(registry)@, self.handle.id as int, Mode::Shared, Kind::ConfigList, ptr.0) && !c.exhausted(),
                Err(e) => !yields(status, ptr.0) && e == failure_of(status) && final(registry)@ == old(registry)@,
            },
    {
        match derive_from(registry, status, &self.handle, Kind::ConfigList, ptr.0) {
            Ok(h) => Ok(ConfigList { handle: h, cursor: Cursor::new() }),
            Err(e) => Err(e),
        }
    }

    /// A query on this database.
    pub fn create_query(&self, registry: &mut Registry, ptr: QueryPtr) -> (r: Result<Query>)
        requires
            wf(old(registry)@),
            yields(notmuch_status_t::NOTMUCH_STATUS_SUCCESS, ptr.0) ==> derive_error(old(registry)@, self.handle.id as int, Mode::Shared, Kind::Query, ptr.0) is None,
        ensures
            wf(final(registry)@),
            match r {
                Ok(c) => yields(notmuch_status_t::NOTMUCH_STATUS_SUCCESS, ptr.0) && c.handle.id == old(registry)@.len()
                    && final(registry)@ == derive_result(old(registry)@, self.handle.id as int, Mode::Shared, Kind::Query, ptr.0),
                Err(e) => !yields(notmuch_status_t::NOTMUCH_STATUS_SUCCESS, ptr.0) && e == failure_of(notmuch_status_t::NOTMUCH_STATUS_SUCCESS) && final(registry)@ == old(registry)@,
            },
    {
        match derive_from(registry, notmuch_status_t::NOTMUCH_STATUS_SUCCESS, &self.handle, Kind::Query, ptr.0) {
            Ok(h) => Ok(Query { handle: h }),
            Err(e) => Err(e),
        }
    }

    /// Every tag used in the database.
    pub fn all_tags(&self, registry: &mut Registry, ptr: TagsPtr) -> (r: Result<Tags>)
        requires
            wf(old(registry)@),
            yields(notmuch_status_t::NOTMUCH_STATUS_SUCCESS, ptr.0) ==> derive_error(old(registry)@, self.handle.id as int, Mode::Shared, Kind::Tags, ptr.0) is None,
        ensures
            wf(final(registry)@),
            match r {
                Ok(c) => yields(notmuch_status_t::NOTMUCH_STATUS_SUCCESS, ptr.0) && c.handle.id == old(registry)@.len()
                    && final(registry)@ == derive_result(old(registry)@, self.handle.id as int, Mode::Shared, Kind::Tags, ptr.0) && !c.exhausted(),
                Err(e) => !yields(notmuch_status_t::NOTMUCH_STATUS_SUCCESS, ptr.0) && e == failure_of(notmuch_status_t::NOTMUCH_STATUS_SUCCESS) && final(registry)@ == old(registry)@,
            },
    {
        match derive_from(registry, notmuch_status_t::NOTMUCH_STATUS_SUCCESS, &self.handle, Kind::Tags, ptr.0) {
            Ok(h) => Ok(Tags { handle: h, cursor: Cursor::new() }),
            Err(e) => Err(e),
        }
    }

    /// The message with a message id; `None` where there is none.
    pub fn find_message(&self, registry: &mut Registry, status: notmuch_status_t, ptr: MessagePtr) -> (r: Result<Option<Message>>)
        requires
            wf(old(registry)@),
            yields(status, ptr.0) ==> derive_error(old(registry)@, self.handle.id as int, Mode::Shared, Kind::Message, ptr.0) is None,
        ensures
            wf(final(registry)@),
            match r {
                Ok(Some(c)) => yields(status, ptr.0) && c.handle.id == old(registry)@.len()
                    && final(registry)@ == derive_result(old(registry)@, self.handle.id as int, Mode::Shared, Kind::Message, ptr.0),
                Ok(None) => status == notmuch_status_t::NOTMUCH_STATUS_SUCCESS && ptr.0 == 0
                    && final(registry)@ == old(registry)@,
                Err(e) => status != notmuch_status_t::NOTMUCH_STATUS_SUCCESS
                    && e == Error::NotmuchError(status_of(status)) && final(registry)@ == old(registry)@,
            },
    {
        match derive_optional(registry, status, &self.handle, Kind::Message, ptr.0) {
            Ok(Some(h)) => Ok(Some(Message { handle: h })),
            Ok(None) => Ok(None),
            Err(e) => Err(e),
        }
    }

    /// The message stored in a file; `None` where there is none.
    pub fn find_message_by_filename(&self, registry: &mut Registry, status: notmuch_status_t, ptr: MessagePtr) -> (r: Result<Option<Message>>)
        requires
            wf(old(registry)@),
            yields(status, ptr.0) ==> derive_error(old(registry)@, self.handle.id as int, Mode::Shared, Kind::Message, ptr.0) is None,
        ensures
            wf(final(registry)@),
            match r {
                Ok(Some(c)) => yields(status, ptr.0) && c.handle.id == old(registry)@.len()
                    && final(registry)@ == derive_result(old(registry)@, self.handle.id as int, Mode::Shared, Kind::Message, ptr.0),
                Ok(None) => status == notmuch_status_t::NOTMUCH_STATUS_SUCCESS && ptr.0 == 0
                    && final(registry)@ == old(registry)@,
                Err(e) => status != notmuch_status_t::NOTMUCH_STATUS_SUCCESS
                    && e == Error::NotmuchError(status_of(status)) && final(registry)@ == old(registry)@,
            },
    {
        match derive_optional(registry, status, &self.handle, Kind::Message, ptr.0) {
            Ok(Some(h)) => Ok(Some(Message { handle: h })),
            Ok(None) => Ok(None),
            Err(e) => Err(e),
        }
    }

    /// The outcome of `notmuch_database_remove_message`.
    pub fn remove_message(&self, status: notmuch_status_t) -> (r: Result<()>)
        ensures
            r == outcome(status),
    {
        status.as_result()
    }

    /// The default options for indexing.
    pub fn default_indexopts(&self, registry: &mut Registry, ptr: IndexOptsPtr) -> (r: Result<IndexOpts>)
        requires
            wf(old(registry)@),
            yields(notmuch_status_t::NOTMUCH_STATUS_SUCCESS, ptr.0) ==> derive_error(old(registry)@, self.handle.id as int, Mode::Shared, Kind::IndexOpts, ptr.0) is None,
        ensures
            wf(final(registry)@),
            match r {
                Ok(c) => yields(notmuch_status_t::NOTMUCH_STATUS_SUCCESS, ptr.0) && c.handle.id == old(registry)@.len()
                    && final(registry)@ == derive_result(old(registry)@, self.handle.id as int, Mode::Shared, Kind::IndexOpts, ptr.0),
                Err(e) => !yields(notmuch_status_t::NOTMUCH_STATUS_SUCCESS, ptr.0) && e == failure_of(notmuch_status_t::NOTMUCH_STATUS_SUCCESS) && final(registry)@ == old(registry)@,
            },
    {
        match derive_from(registry, notmuch_status_t::NOTMUCH_STATUS_SUCCESS, &self.handle, Kind::IndexOpts, ptr.0) {
            Ok(h) => Ok(IndexOpts { handle: h }),
            Err(e) => Err(e),
        }
    }

    /// The message that indexing a file produced.
    pub fn index_file(&self, registry: &mut Registry, status: notmuch_status_t, ptr: MessagePtr) -> (r: Result<Message>)
        requires
            wf(old(registry)@),
            yields(status, ptr.0) ==> derive_error(old(registry)@, self.handle.id as int, Mode::Shared, Kind::Message, ptr.0) is None,
        ensures
            wf(final(registry)@),
            match r {
                Ok(c) => yields(status, ptr.0) && c.handle.id == old(registry)@.len()
                    && final(registry)@ == derive_result(old(registry)@, self.handle.id as int, Mode::Shared, Kind::Message, ptr.0),
                Err(e) => !yields(status, ptr.0) && e == failure_of(status) && final(registry)@ == old(registry)@,
            },
    {
        match derive_from(registry, status, &self.handle, Kind::Message, ptr.0) {
            Ok(h) => Ok(Message { handle: h }),
            Err(e) => Err(e),
        }
    }

    /// Records the start of an atomic section, once
    /// `notmuch_database_begin_atomic` reported its status.
    pub fn begin_atomic(&self, registry: &mut Registry, status: notmuch_status_t) -> (r: Result<()>)
        requires
            wf(old(registry)@),
            usable(old(registry)@, self.handle.id as int),
            old(registry)@[self.handle.id as int].depth < u64::MAX,
        ensures
            wf(final(registry)@),
            status == notmuch_status_t::NOTMUCH_STATUS_SUCCESS ==> r is Ok && apply(
                old(registry)@,
                Op::Nest { id: self.handle.id },
            ) == Some((final(registry)@, Seq::<usize>::empty())),
            status != notmuch_status_t::NOTMUCH_STATUS_SUCCESS ==> r == Err::<(), Error>(
                Error::NotmuchError(status_of(status)),
            ) && final(registry)@ == old(registry)@,
    {
        enter_section(registry, &self.handle, status)
    }

    /// Records the end of the innermost atomic section, once
    /// `notmuch_database_end_atomic` reported its status. With no section
    /// open it fails as unbalanced.
    pub fn end_atomic(&self, registry: &mut Registry, status: notmuch_status_t) -> (r: Result<()>)
        requires
            wf(old(registry)@),
            usable(old(registry)@, self.handle.id as int),
        ensures
            wf(final(registry)@),
            old(registry)@[self.handle.id as int].depth == 0 ==> r == Err::<(), Error>(
                Error::NotmuchError(Status::UnbalancedAtomic),
            ) && final(registry)@ == old(registry)@,
            old(registry)@[self.handle.id as int].depth > 0 && status != notmuch_status_t::NOTMUCH_STATUS_SUCCESS
                ==> r == Err::<(), Error>(Error::NotmuchError(status_of(status))) && final(registry)@
                == old(registry)@,
            old(registry)@[self.handle.id as int].depth > 0 && status == notmuch_status_t::NOTMUCH_STATUS_SUCCESS
                ==> r is Ok && apply(old(registry)@, Op::Unnest { id: self.handle.id }) == Some(
                (final(registry)@, Seq::<usize>::empty()),
            ),
    {
        match leave_section(registry, &self.handle, status, Status::UnbalancedAtomic) {
            Ok(_) => Ok(()),
            Err(e) => Err(e),
        }
    }
}

/// An atomic section on a database, open for the lifetime of the guard.
#[derive(Debug)]
pub struct AtomicOperation<'a> {
    pub database: &'a Database,
}

impl<'a> AtomicOperation<'a> {
    /// Opens the section, once `notmuch_database_begin_atomic` reported its status.
    pub fn new(registry: &mut Registry, database: &'a Database, status: notmuch_status_t) -> (r: Result<AtomicOperation<'a>>)
        requires
            wf(old(registry)@),
            usable(old(registry)@, database.handle.id as int),
            old(registry)@[database.handle.id as int].depth < u64::MAX,
        ensures
            wf(final(registry)@),
            status == notmuch_status_t::NOTMUCH_STATUS_SUCCESS ==> (r matches Ok(a) && a.database == database
                && apply(old(registry)@, Op::Nest { id: database.handle.id }) == Some(
                (final(registry)@, Seq::<usize>::empty()),
            )),
            status != notmuch_status_t::NOTMUCH_STATUS_SUCCESS ==> (r matches Err(e) && e == Error::NotmuchError(
                status_of(status),
            ) && final(registry)@ == old(registry)@),
    {
        match database.begin_atomic(registry, status) {
            Ok(()) => Ok(AtomicOperation { database }),
            Err(e) => Err(e),
        }
    }

    /// Closes the section, once `notmuch_database_end_atomic` reported its status.
    pub fn end(self, registry: &mut Registry, status: notmuch_status_t) -> (r: Result<()>)
        requires
            wf(old(registry)@),
            usable(old(registry)@, self.database.handle.id as int),
        ensures
            wf(final(registry)@),
            old(registry)@[self.database.handle.id as int].depth == 0 ==> r == Err::<(), Error>(
                Error::NotmuchError(Status::UnbalancedAtomic),
            ) && final(registry)@ == old(registry)@,
            old(registry)@[self.database.handle.id as int].depth > 0 && status
                != notmuch_status_t::NOTMUCH_STATUS_SUCCESS ==> r == Err::<(), Error>(
                Error::NotmuchError(status_of(status)),
            ) && final(registry)@ == old(registry)@,
            old(registry)@[self.database.handle.id as int].depth > 0 && status
                == notmuch_status_t::NOTMUCH_STATUS_SUCCESS ==> r is Ok && apply(
                old(registry)@,
                Op::Unnest { id: self.database.handle.id },
            ) == Some((final(registry)@, Seq::<usize>::empty())),
    {
        self.database.end_atomic(registry, status)
    }
}

} // verus!
