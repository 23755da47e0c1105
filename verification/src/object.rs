//! The processing object: an exclusively owned handle to a per-sample audio
//! transformer whose code lives inside a loaded module. The handle records
//! the load generation of its backing module, so that the retention policy
//! (modules are never closed) can be stated against it.

use vstd::prelude::*;

verus! {

/// Handle to one polymorphic processing instance. `module_gen` is the load
/// generation of the module the instance was extracted from; the module is
/// retained for the life of the process, so the instance never outlives its
/// code.
#[derive(Clone, Copy, Debug, PartialEq, Eq, Structural)]
pub struct ProcessingObject {
    pub module_gen: u64,
}

impl ProcessingObject {
    /// Wrap the given load generation as an object handle.
    pub fn new(module_gen: u64) -> (r: ProcessingObject)
        ensures
            r.module_gen == module_gen,
    {
        ProcessingObject { module_gen }
    }
}

} // verus!
