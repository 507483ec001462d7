use vstd::prelude::*;

use crate::cursor::{cursor_step, Cursor};
use crate::native::ConfigValuesPtr;
use crate::registry::{derive_error, derive_result, wf, Handle, Kind, Mode, Registry};

verus! {

/// The values of one list-valued configuration key.
///
/// A forward-only cursor: each element is copied out before the native
/// cursor moves past it.
#[derive(Debug)]
pub struct ConfigValues {
    pub handle: Handle,
    pub cursor: Cursor,
}

impl ConfigValues {
    /// Whether the end was reached.
    pub open spec fn exhausted(&self) -> bool {
        self.cursor.is_exhausted()
    }

    /// Wraps a native object derived from `owner`, related to it as `mode` says.
    pub fn from_ptr(registry: &mut Registry, ptr: ConfigValuesPtr, owner: &Handle, mode: Mode) -> (r: ConfigValues)
        requires
            wf(old(registry)@),
            derive_error(old(registry)@, owner.id as int, mode, Kind::ConfigValues, ptr.0) is None,
        ensures
            wf(final(registry)@),
            r.handle.id == old(registry)@.len(),
            final(registry)@ == derive_result(old(registry)@, owner.id as int, mode, Kind::ConfigValues, ptr.0),
            !r.exhausted(),
    {
        ConfigValues { handle: registry.attach(owner, mode, Kind::ConfigValues, ptr.0), cursor: Cursor::new() }
    }

    /// Produces the next value. `current` is the native cursor's current
    /// element, copied out, or `None` where the native cursor is no longer
    /// valid; the caller advances the native cursor exactly when this
    /// returns an element.
    pub fn next(&mut self, current: Option<String>) -> (r: Option<String>)
        ensures
            (final(self).exhausted(), r) == cursor_step(old(self).exhausted(), current),
            final(self).handle == old(self).handle,
    {
        self.cursor.next(current)
    }
}

} // verus!
