use vstd::prelude::*;

use crate::cursor::{cursor_step, Cursor};
use crate::native::{ThreadPtr, ThreadsPtr};
use crate::registry::{derive_error, derive_result, wf, Handle, Kind, Mode, Registry};
use crate::thread::Thread;

verus! {

/// The threads that a query matched: a forward-only cursor.
#[derive(Debug)]
pub struct Threads {
    pub handle: Handle,
    pub cursor: Cursor,
}

impl Threads {
    /// Whether the end was reached.
    pub open spec fn exhausted(&self) -> bool {
        self.cursor.is_exhausted()
    }

    /// Wraps a native object derived from `owner`, related to it as `mode` says.
    pub fn from_ptr(registry: &mut Registry, ptr: ThreadsPtr, owner: &Handle, mode: Mode) -> (r: Threads)
        requires
            wf(old(registry)@),
            derive_error(old(registry)@, owner.id as int, mode, Kind::Threads, ptr.0) is None,
        ensures
            wf(final(registry)@),
            r.handle.id == old(registry)@.len(),
            final(registry)@ == derive_result(old(registry)@, owner.id as int, mode, Kind::Threads, ptr.0),
            !r.exhausted(),
    {
        let h = registry.attach(owner, mode, Kind::Threads, ptr.0);
        Threads { handle: h, cursor: Cursor::new() }
    }

    /// Produces the next thread. `current` is the native cursor's
    /// current element, or `None` where the native cursor is no longer
    /// valid; the caller advances the native cursor exactly when this
    /// returns an element. The element keeps this list alive.
    pub fn next(&mut self, registry: &mut Registry, current: Option<ThreadPtr>) -> (r: Option<Thread>)
        requires
            wf(old(registry)@),
            !old(self).exhausted() ==> (current matches Some(p) ==> derive_error(
                old(registry)@,
                old(self).handle.id as int,
                Mode::Shared,
                Kind::Thread,
                p.0,
            ) is None),
        ensures
            wf(final(registry)@),
            final(self).handle == old(self).handle,
            final(self).exhausted() == cursor_step(old(self).exhausted(), current).0,
            match cursor_step(old(self).exhausted(), current).1 {
                Some(p) => r matches Some(m) && m.handle.id == old(registry)@.len() && final(registry)@
                    == derive_result(old(registry)@, old(self).handle.id as int, Mode::Shared, Kind::Thread, p.0),
                None => r is None && final(registry)@ == old(registry)@,
            },
    {
        match self.cursor.next(current) {
            Some(p) => {
                let h = registry.attach(&self.handle, Mode::Shared, Kind::Thread, p.0);
                Some(Thread { handle: h })
            },
            None => None,
        }
    }
}

} // verus!
