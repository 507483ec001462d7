use vstd::prelude::*;

use crate::cursor::Cursor;
use crate::error::{Error, Result};
use crate::filenames::Filenames;
use crate::message_properties::MessageProperties;
use crate::messages::Messages;
use crate::native::{
    derive_from, derive_optional, failure_of, yields, FilenamesPtr, MessagePropertiesPtr,
    MessagePtr, MessagesPtr, TagsPtr,
};
use crate::query::{count_result, counted};
use crate::registry::{apply, derive_error, derive_result, usable, wf, Handle, Kind, Mode, Op, Registry};
use crate::section::{enter_section, leave_section};
use crate::status::{notmuch_status_t, status_of, Status};
use crate::tags::Tags;

verus! {

/// One email.
#[derive(Debug)]
pub struct Message {
    pub handle: Handle,
}

/// What a header lookup gives for the native answer: the null pointer is an
/// error, the empty string means the header is absent.
pub open spec fn header_outcome(value: Option<String>) -> Result<Option<String>> {
    match value {
        None => Err(Error::UnspecifiedError),
        Some(s) => if s@.len() == 0 {
            Ok(None)
        } else {
            Ok(Some(s))
        },
    }
}

impl Message {
    /// Wraps a native object derived from `owner`, related to it as `mode` says.
    pub fn from_ptr(registry: &mut Registry, ptr: MessagePtr, owner: &Handle, mode: Mode) -> (r: Message)
        requires
            wf(old(registry)@),
            derive_error(old(registry)@, owner.id as int, mode, Kind::Message, ptr.0) is None,
        ensures
            wf(final(registry)@),
            r.handle.id == old(registry)@.len(),
            final(registry)@ == derive_result(old(registry)@, owner.id as int, mode, Kind::Message, ptr.0),
    {
        let h = registry.attach(owner, mode, Kind::Message, ptr.0);
        Message { handle: h }
    }

    /// The replies to this message; `None` where the native library gave
    /// the null pointer, which it does for a message without replies.
    pub fn replies(&self, registry: &mut Registry, ptr: MessagesPtr) -> (r: Option<Messages>)
        requires
            wf(old(registry)@),
            ptr.0 != 0 ==> derive_error(old(registry)@, self.handle.id as int, Mode::Shared, Kind::Messages, ptr.0) is None,
        ensures
            wf(final(registry)@),
            match r {
                Some(c) => ptr.0 != 0 && c.handle.id == old(registry)@.len() && final(registry)@
                    == derive_result(old(registry)@, self.handle.id as int, Mode::Shared, Kind::Messages, ptr.0)
                    && !c.exhausted(),
                None => ptr.0 == 0 && final(registry)@ == old(registry)@,
            },
    {
        match derive_optional(registry, notmuch_status_t::NOTMUCH_STATUS_SUCCESS, &self.handle, Kind::Messages, ptr.0) {
            Ok(Some(h)) => Some(Messages { handle: h, cursor: Cursor::new() }),
            _ => None,
        }
    }

    /// The files of this message.
    pub fn filenames(&self, registry: &mut Registry, ptr: FilenamesPtr) -> (r: Result<Filenames>)
        requires
            wf(old(registry)@),
            yields(notmuch_status_t::NOTMUCH_STATUS_SUCCESS, ptr.0) ==> derive_error(old(registry)@, self.handle.id as int, Mode::Shared, Kind::Filenames, ptr.0) is None,
        ensures
            wf(final(registry)@),
            match r {
                Ok(c) => yields(notmuch_status_t::NOTMUCH_STATUS_SUCCESS, ptr.0) && c.handle.id == old(registry)@.len()
                    && final(registry)@ == derive_result(old(registry)@, self.handle.id as int, Mode::Shared, Kind::Filenames, ptr.0) && !c.exhausted(),
                Err(e) => !yields(notmuch_status_t::NOTMUCH_STATUS_SUCCESS, ptr.0) && e == failure_of(notmuch_status_t::NOTMUCH_STATUS_SUCCESS) && final(registry)@ == old(registry)@,
            },
    {
        match derive_from(registry, notmuch_status_t::NOTMUCH_STATUS_SUCCESS, &self.handle, Kind::Filenames, ptr.0) {
            Ok(h) => Ok(Filenames { handle: h, cursor: Cursor::new() }),
            Err(e) => Err(e),
        }
    }

    /// The tags of this message.
    pub fn tags(&self, registry: &mut Registry, ptr: TagsPtr) -> (r: Result<Tags>)
        requires
            wf(old(registry)@),
            yields(notmuch_status_t::NOTMUCH_STATUS_SUCCESS, ptr.0) ==> derive_error(old(registry)@, self.handle.id as int, Mode::Shared, Kind::Tags, ptr.0) is None,
        ensures
            wf(final(registry)@),
            match r {
                Ok(c) => yields(notmuch_status_t::NOTMUCH_STATUS_SUCCESS, ptr.0) && c.handle.id == old(registry)@.len()
                    && final(registry)@ == derive_result(old(registry)@, self.handle.id as int, Mode::Shared, Kind::Tags, ptr.0) && !c.exhausted(),
                Err(e) => !yields(notmuch_status_t::NOTMUCH_STATUS_SUCCESS, ptr.0) && e == failure_of(notmuch_status_t::NOTMUCH_STATUS_SUCCESS) && final(registry)@ == old(registry)@,
            },
    {
        match derive_from(registry, notmuch_status_t::NOTMUCH_STATUS_SUCCESS, &self.handle, Kind::Tags, ptr.0) {
            Ok(h) => Ok(Tags { handle: h, cursor: Cursor::new() }),
            Err(e) => Err(e),
        }
    }

    /// The properties of this message whose keys match what the native call was given.
    pub fn properties(&self, registry: &mut Registry, ptr: MessagePropertiesPtr) -> (r: Result<MessageProperties>)
        requires
            wf(old(registry)@),
            yields(notmuch_status_t::NOTMUCH_STATUS_SUCCESS, ptr.0) ==> derive_error(old(registry)@, self.handle.id as int, Mode::Shared, Kind::MessageProperties, ptr.0) is None,
        ensures
            wf(final(registry)@),
            match r {
                Ok(c) => yields(notmuch_status_t::NOTMUCH_STATUS_SUCCESS, ptr.0) && c.handle.id == old(registry)@.len()
                    && final(registry)@ == derive_result(old(registry)@, self.handle.id as int, Mode::Shared, Kind::MessageProperties, ptr.0) && !c.exhausted(),
                Err(e) => !yields(notmuch_status_t::NOTMUCH_STATUS_SUCCESS, ptr.0) && e == failure_of(notmuch_status_t::NOTMUCH_STATUS_SUCCESS) && final(registry)@ == old(registry)@,
            },
    {
        match derive_from(registry, notmuch_status_t::NOTMUCH_STATUS_SUCCESS, &self.handle, Kind::MessageProperties, ptr.0) {
            Ok(h) => Ok(MessageProperties { handle: h, cursor: Cursor::new() }),
            Err(e) => Err(e),
        }
    }

    /// The value of a header, from the native answer: `None` where the
    /// message has no such header.
    pub fn header(&self, value: Option<String>) -> (r: Result<Option<String>>)
        ensures
            r == header_outcome(value),
    {
        match value {
            None => Err(Error::UnspecifiedError),
            Some(s) => if s.as_str().is_empty() {
                Ok(None)
            } else {
                Ok(Some(s))
            },
        }
    }

    /// The value of a property, from the native call's status and answer.
    pub fn property(&self, status: notmuch_status_t, value: Option<String>) -> (r: Result<String>)
        ensures
            status != notmuch_status_t::NOTMUCH_STATUS_SUCCESS ==> r == Err::<String, Error>(
                Error::NotmuchError(status_of(status)),
            ),
            status == notmuch_status_t::NOTMUCH_STATUS_SUCCESS ==> match value {
                None => r == Err::<String, Error>(Error::UnspecifiedError),
                Some(s) => r == Ok::<String, Error>(s),
            },
    {
        match status.as_result() {
            Err(e) => Err(e),
            Ok(()) => match value {
                None => Err(Error::UnspecifiedError),
                Some(s) => Ok(s),
            },
        }
    }

    /// The number of properties with a key, as the native call reported it.
    pub fn count_properties(&self, status: notmuch_status_t, count: u32) -> (r: Result<u32>)
        ensures
            r == counted(status, count),
    {
        count_result(status, count)
    }

    /// Records a freeze of this message, once `notmuch_message_freeze`
    /// reported its status: tag changes stay invisible until the matching thaw.
    pub fn freeze(&self, registry: &mut Registry, status: notmuch_status_t) -> (r: Result<()>)
        requires
            wf(old(registry)@),
            usable(old(registry)@, self.handle.id as int),
            old(registry)@[self.handle.id as int].depth < u64::MAX,
        ensures
            wf(final(registry)@),
            status == notmuch_status_t::NOTMUCH_STATUS_SUCCESS ==> r is Ok && apply(
                old(registry)@,
                Op::Nest { id: self.handle.id },
            ) == Some((final(registry)@, Seq::<usize>::empty())),
            status != notmuch_status_t::NOTMUCH_STATUS_SUCCESS ==> r == Err::<(), Error>(
                Error::NotmuchError(status_of(status)),
            ) && final(registry)@ == old(registry)@,
    {
        enter_section(registry, &self.handle, status)
    }

    /// Records a thaw of this message, once `notmuch_message_thaw` reported
    /// its status; gives whether it was the outermost one, after which the
    /// changes made while frozen are visible.
    pub fn thaw(&self, registry: &mut Registry, status: notmuch_status_t) -> (r: Result<bool>)
        requires
            wf(old(registry)@),
            usable(old(registry)@, self.handle.id as int),
        ensures
            wf(final(registry)@),
            old(registry)@[self.handle.id as int].depth == 0 ==> r == Err::<bool, Error>(
                Error::NotmuchError(Status::UnbalancedFreezeThaw),
            ) && final(registry)@ == old(registry)@,
            old(registry)@[self.handle.id as int].depth > 0 && status != notmuch_status_t::NOTMUCH_STATUS_SUCCESS
                ==> r == Err::<bool, Error>(Error::NotmuchError(status_of(status))) && final(registry)@
                == old(registry)@,
            old(registry)@[self.handle.id as int].depth > 0 && status == notmuch_status_t::NOTMUCH_STATUS_SUCCESS
                ==> r == Ok::<bool, Error>(old(registry)@[self.handle.id as int].depth == 1) && apply(
                old(registry)@,
                Op::Unnest { id: self.handle.id },
            ) == Some((final(registry)@, Seq::<usize>::empty())),
    {
        leave_section(registry, &self.handle, status, Status::UnbalancedFreezeThaw)
    }
}

/// A message frozen for the lifetime of the guard: tag changes made through
/// it become visible together when it is thawed.
#[derive(Debug)]
pub struct FrozenMessage<'a> {
    pub message: &'a Message,
}

impl<'a> FrozenMessage<'a> {
    /// Freezes the message, once `notmuch_message_freeze` reported its status.
    pub fn new(registry: &mut Registry, message: &'a Message, status: notmuch_status_t) -> (r: Result<FrozenMessage<'a>>)
        requires
            wf(old(registry)@),
            usable(old(registry)@, message.handle.id as int),
            old(registry)@[message.handle.id as int].depth < u64::MAX,
        ensures
            wf(final(registry)@),
            status == notmuch_status_t::NOTMUCH_STATUS_SUCCESS ==> (r matches Ok(f) && f.message == message
                && apply(old(registry)@, Op::Nest { id: message.handle.id }) == Some(
                (final(registry)@, Seq::<usize>::empty()),
            )),
            status != notmuch_status_t::NOTMUCH_STATUS_SUCCESS ==> (r matches Err(e) && e == Error::NotmuchError(
                status_of(status),
            ) && final(registry)@ == old(registry)@),
    {
        match message.freeze(registry, status) {
            Ok(()) => Ok(FrozenMessage { message }),
            Err(e) => Err(e),
        }
    }

    /// Ends the guard: thaws the message, once `notmuch_message_thaw`
    /// reported its status; gives whether the changes are now visible.
    pub fn thaw(self, registry: &mut Registry, status: notmuch_status_t) -> (r: Result<bool>)
        requires
            wf(old(registry)@),
            usable(old(registry)@, self.message.handle.id as int),
        ensures
            wf(final(registry)@),
            old(registry)@[self.message.handle.id as int].depth == 0 ==> r == Err::<bool, Error>(
                Error::NotmuchError(Status::UnbalancedFreezeThaw),
            ) && final(registry)@ == old(registry)@,
            old(registry)@[self.message.handle.id as int].depth > 0 && status
                != notmuch_status_t::NOTMUCH_STATUS_SUCCESS ==> r == Err::<bool, Error>(
                Error::NotmuchError(status_of(status)),
            ) && final(registry)@ == old(registry)@,
            old(registry)@[self.message.handle.id as int].depth > 0 && status
                == notmuch_status_t::NOTMUCH_STATUS_SUCCESS ==> r == Ok::<bool, Error>(
                old(registry)@[self.message.handle.id as int].depth == 1,
            ) && apply(old(registry)@, Op::Unnest { id: self.message.handle.id }) == Some(
                (final(registry)@, Seq::<usize>::empty()),
            ),
    {
        self.message.thaw(registry, status)
    }
}

} // verus!
