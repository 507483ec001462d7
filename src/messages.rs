use vstd::prelude::*;

use crate::cursor::{cursor_step, Cursor};
use crate::error::Result;
use crate::message::Message;
use crate::native::{derive_from, failure_of, yields, MessagePtr, MessagesPtr, TagsPtr};
use crate::registry::{derive_error, derive_result, wf, Handle, Kind, Mode, Registry};
use crate::status::notmuch_status_t;
use crate::tags::Tags;

verus! {

/// A list of messages: a forward-only cursor.
#[derive(Debug)]
pub struct Messages {
    pub handle: Handle,
    pub cursor: Cursor,
}

impl Messages {
    /// Whether the end was reached.
    pub open spec fn exhausted(&self) -> bool {
        self.cursor.is_exhausted()
    }

    /// Wraps a native object derived from `owner`, related to it as `mode` says.
    pub fn from_ptr(registry: &mut Registry, ptr: MessagesPtr, owner: &Handle, mode: Mode) -> (r: Messages)
        requires
            wf(old(registry)@),
            derive_error(old(registry)@, owner.id as int, mode, Kind::Messages, ptr.0) is None,
        ensures
            wf(final(registry)@),
            r.handle.id == old(registry)@.len(),
            final(registry)@ == derive_result(old(registry)@, owner.id as int, mode, Kind::Messages, ptr.0),
            !r.exhausted(),
    {
        let h = registry.attach(owner, mode, Kind::Messages, ptr.0);
        Messages { handle: h, cursor: Cursor::new() }
    }

    /// Produces the next message. `current` is the native cursor's
    /// current element, or `None` where the native cursor is no longer
    /// valid; the caller advances the native cursor exactly when this
    /// returns an element. The element keeps this list alive.
    pub fn next(&mut self, registry: &mut Registry, current: Option<MessagePtr>) -> (r: Option<Message>)
        requires
            wf(old(registry)@),
            !old(self).exhausted() ==> (current matches Some(p) ==> derive_error(
                old(registry)@,
                old(self).handle.id as int,
                Mode::Shared,
                Kind::Message,
                p.0,
            ) is None),
        ensures
            wf(final(registry)@),
            final(self).handle == old(self).handle,
            final(self).exhausted() == cursor_step(old(self).exhausted(), current).0,
            match cursor_step(old(self).exhausted(), current).1 {
                Some(p) => r matches Some(m) && m.handle.id == old(registry)@.len() && final(registry)@
                    == derive_result(old(registry)@, old(self).handle.id as int, Mode::Shared, Kind::Message, p.0),
                None => r is None && final(registry)@ == old(registry)@,
            },
    {
        match self.cursor.next(current) {
            Some(p) => {
                let h = registry.attach(&self.handle, Mode::Shared, Kind::Message, p.0);
                Some(Message { handle: h })
            },
            None => None,
        }
    }

    /// The tags of all messages of the list, without repetition. The native
    /// call walks the list to its end, so the list is exhausted afterwards,
    /// whatever the outcome.
    pub fn collect_tags(&mut self, registry: &mut Registry, ptr: TagsPtr) -> (r: Result<Tags>)
        requires
            wf(old(registry)@),
            ptr.0 != 0 ==> derive_error(old(registry)@, old(self).handle.id as int, Mode::Shared, Kind::Tags, ptr.0) is None,
        ensures
            wf(final(registry)@),
            final(self).handle == old(self).handle,
            final(self).exhausted(),
            match r {
                Ok(c) => ptr.0 != 0 && c.handle.id == old(registry)@.len() && final(registry)@
                    == derive_result(old(registry)@, old(self).handle.id as int, Mode::Shared, Kind::Tags, ptr.0)
                    && !c.exhausted(),
                Err(e) => ptr.0 == 0 && e == failure_of(notmuch_status_t::NOTMUCH_STATUS_SUCCESS)
                    && final(registry)@ == old(registry)@,
            },
    {
        self.cursor.exhaust();
        match derive_from(registry, notmuch_status_t::NOTMUCH_STATUS_SUCCESS, &self.handle, Kind::Tags, ptr.0) {
            Ok(h) => Ok(Tags { handle: h, cursor: Cursor::new() }),
            Err(e) => Err(e),
        }
    }
}

} // verus!
