use vstd::prelude::*;

use crate::error::{Error, Result};
use crate::native::{derive_from, derive_optional, failure_of, yields, MessagesPtr, TagsPtr, ThreadPtr};
use crate::registry::{derive_error, derive_result, wf, Handle, Kind, Mode, Registry};
use crate::status::{notmuch_status_t, status_of};
use crate::cstr::{split_on, split_string};
use crate::cursor::Cursor;
use crate::messages::Messages;
use crate::tags::Tags;

verus! {

/// One conversation.
#[derive(Debug)]
pub struct Thread {
    pub handle: Handle,
}

impl Thread {
    /// Wraps a native object derived from `owner`, related to it as `mode` says.
    pub fn from_ptr(registry: &mut Registry, ptr: ThreadPtr, owner: &Handle, mode: Mode) -> (r: Thread)
        requires
            wf(old(registry)@),
            derive_error(old(registry)@, owner.id as int, mode, Kind::Thread, ptr.0) is None,
        ensures
            wf(final(registry)@),
            r.handle.id == old(registry)@.len(),
            final(registry)@ == derive_result(old(registry)@, owner.id as int, mode, Kind::Thread, ptr.0),
    {
        let h = registry.attach(owner, mode, Kind::Thread, ptr.0);
        Thread { handle: h }
    }

    /// The messages of this thread that reply to none of its other messages.
    pub fn toplevel_messages(&self, registry: &mut Registry, ptr: MessagesPtr) -> (r: Result<Messages>)
        requires
            wf(old(registry)@),
            yields(notmuch_status_t::NOTMUCH_STATUS_SUCCESS, ptr.0) ==> derive_error(old(registry)@, self.handle.id as int, Mode::Shared, Kind::Messages, ptr.0) is None,
        ensures
            wf(final(registry)@),
            match r {
                Ok(c) => yields(notmuch_status_t::NOTMUCH_STATUS_SUCCESS, ptr.0) && c.handle.id == old(registry)@.len()
                    && final(registry)@ == derive_result(old(registry)@, self.handle.id as int, Mode::Shared, Kind::Messages, ptr.0) && !c.exhausted(),
                Err(e) => !yields(notmuch_status_t::NOTMUCH_STATUS_SUCCESS, ptr.0) && e == failure_of(notmuch_status_t::NOTMUCH_STATUS_SUCCESS) && final(registry)@ == old(registry)@,
            },
    {
        match derive_from(registry, notmuch_status_t::NOTMUCH_STATUS_SUCCESS, &self.handle, Kind::Messages, ptr.0) {
            Ok(h) => Ok(Messages { handle: h, cursor: Cursor::new() }),
            Err(e) => Err(e),
        }
    }

    /// All messages of this thread, oldest first.
    pub fn messages(&self, registry: &mut Registry, ptr: MessagesPtr) -> (r: Result<Messages>)
        requires
            wf(old(registry)@),
            yields(notmuch_status_t::NOTMUCH_STATUS_SUCCESS, ptr.0) ==> derive_error(old(registry)@, self.handle.id as int, Mode::Shared, Kind::Messages, ptr.0) is None,
        ensures
            wf(final(registry)@),
            match r {
                Ok(c) => yields(notmuch_status_t::NOTMUCH_STATUS_SUCCESS, ptr.0) && c.handle.id == old(registry)@.len()
                    && final(registry)@ == derive_result(old(registry)@, self.handle.id as int, Mode::Shared, Kind::Messages, ptr.0) && !c.exhausted(),
                Err(e) => !yields(notmuch_status_t::NOTMUCH_STATUS_SUCCESS, ptr.0) && e == failure_of(notmuch_status_t::NOTMUCH_STATUS_SUCCESS) && final(registry)@ == old(registry)@,
            },
    {
        match derive_from(registry, notmuch_status_t::NOTMUCH_STATUS_SUCCESS, &self.handle, Kind::Messages, ptr.0) {
            Ok(h) => Ok(Messages { handle: h, cursor: Cursor::new() }),
            Err(e) => Err(e),
        }
    }

    /// The tags of all messages of this thread.
    pub fn tags(&self, registry: &mut Registry, ptr: TagsPtr) -> (r: Result<Tags>)
        requires
            wf(old(registry)@),
            yields(notmuch_status_t::NOTMUCH_STATUS_SUCCESS, ptr.0) ==> derive_error(old(registry)@, self.handle.id as int, Mode::Shared, Kind::Tags, ptr.0) is None,
        ensures
            wf(final(registry)@),
            match r {
                Ok(c) => yields(notmuch_status_t::NOTMUCH_STATUS_SUCCESS, ptr.0) && c.handle.id == old(registry)@.len()
                    && final(registry)@ == derive_result(old(registry)@, self.handle.id as int, Mode::Shared, Kind::Tags, ptr.0) && !c.exhausted(),
                Err(e) => !yields(notmuch_status_t::NOTMUCH_STATUS_SUCCESS, ptr.0) && e == failure_of(notmuch_status_t::NOTMUCH_STATUS_SUCCESS) && final(registry)@ == old(registry)@,
            },
    {
        match derive_from(registry, notmuch_status_t::NOTMUCH_STATUS_SUCCESS, &self.handle, Kind::Tags, ptr.0) {
            Ok(h) => Ok(Tags { handle: h, cursor: Cursor::new() }),
            Err(e) => Err(e),
        }
    }

    /// The authors of the thread, from the comma-separated list that the
    /// native library gives.
    pub fn authors(&self, list: &str) -> (r: Vec<String>)
        ensures
            r@.map_values(|a: String| a@) == split_on(list@, ','),
    {
        split_string(list, ',')
    }
}

} // verus!
