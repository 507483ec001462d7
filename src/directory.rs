use vstd::prelude::*;

use crate::error::{Error, Result};
use crate::native::{derive_from, derive_optional, failure_of, yields, DirectoryPtr, FilenamesPtr};
use crate::registry::{derive_error, derive_result, wf, Handle, Kind, Mode, Registry};
use crate::status::{notmuch_status_t, status_of};
use crate::cursor::Cursor;
use crate::filenames::Filenames;

verus! {

/// A directory of the mail store, as the database indexes it.
#[derive(Debug)]
pub struct Directory {
    pub handle: Handle,
}

impl Directory {
    /// Wraps a native object derived from `owner`, related to it as `mode` says.
    pub fn from_ptr(registry: &mut Registry, ptr: DirectoryPtr, owner: &Handle, mode: Mode) -> (r: Directory)
        requires
            wf(old(registry)@),
            derive_error(old(registry)@, owner.id as int, mode, Kind::Directory, ptr.0) is None,
        ensures
            wf(final(registry)@),
            r.handle.id == old(registry)@.len(),
            final(registry)@ == derive_result(old(registry)@, owner.id as int, mode, Kind::Directory, ptr.0),
    {
        let h = registry.attach(owner, mode, Kind::Directory, ptr.0);
        Directory { handle: h }
    }

    /// The subdirectories of this directory.
    pub fn child_directories(&self, registry: &mut Registry, ptr: FilenamesPtr) -> (r: Result<Filenames>)
        requires
            wf(old(registry)@),
            yields(notmuch_status_t::NOTMUCH_STATUS_SUCCESS, ptr.0) ==> derive_error(old(registry)@, self.handle.id as int, Mode::Shared, Kind::Filenames, ptr.0) is None,
        ensures
            wf(final(registry)@),
            match r {
                Ok(c) => yields(notmuch_status_t::NOTMUCH_STATUS_SUCCESS, ptr.0) && c.handle.id == old(registry)@.len()
                    && final(registry)@ == derive_result(old(registry)@, self.handle.id as int, Mode::Shared, Kind::Filenames, ptr.0) && !c.exhausted(),
                Err(e) => !yields(notmuch_status_t::NOTMUCH_STATUS_SUCCESS, ptr.0) && e == failure_of(notmuch_status_t::NOTMUCH_STATUS_SUCCESS) && final(registry)@ == old(registry)@,
            },
    {
        match derive_from(registry, notmuch_status_t::NOTMUCH_STATUS_SUCCESS, &self.handle, Kind::Filenames, ptr.0) {
            Ok(h) => Ok(Filenames { handle: h, cursor: Cursor::new() }),
            Err(e) => Err(e),
        }
    }
}

} // verus!
