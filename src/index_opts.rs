use vstd::prelude::*;

use crate::native::IndexOptsPtr;
use crate::registry::{derive_error, derive_result, wf, Handle, Kind, Mode, Registry};

verus! {

/// The options of one indexing operation.
#[derive(Debug)]
pub struct IndexOpts {
    pub handle: Handle,
}

impl IndexOpts {
    /// Wraps a native object derived from `owner`, related to it as `mode` says.
    pub fn from_ptr(registry: &mut Registry, ptr: IndexOptsPtr, owner: &Handle, mode: Mode) -> (r: IndexOpts)
        requires
            wf(old(registry)@),
            derive_error(old(registry)@, owner.id as int, mode, Kind::IndexOpts, ptr.0) is None,
        ensures
            wf(final(registry)@),
            r.handle.id == old(registry)@.len(),
            final(registry)@ == derive_result(old(registry)@, owner.id as int, mode, Kind::IndexOpts, ptr.0),
    {
        let h = registry.attach(owner, mode, Kind::IndexOpts, ptr.0);
        IndexOpts { handle: h }
    }
}

} // verus!
