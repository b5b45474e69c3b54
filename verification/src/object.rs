//! The destruction of a driver object (a command buffer or a shader) with
//! the driver's generic destruction call.
use vstd::prelude::*;

use crate::ffi::GR_RESULT;

verus! {

/// The destruction of one object in progress: the one call destroys it.
pub struct ObjectDestruction {
    object: u64,
}

impl ObjectDestruction {
    /// Starts the destruction of the object with the given handle.
    pub fn new(object: u64) -> (d: ObjectDestruction)
        ensures
            d.object() == object,
    {
        ObjectDestruction { object }
    }

    /// The driver's handle of the object to destroy.
    pub closed spec fn object(&self) -> u64 {
        self.object
    }

    pub fn get_object(&self) -> (o: u64)
        ensures
            o == self.object(),
    {
        self.object
    }

    /// Finishes after the success of the destruction.
    pub fn destroyed(self, result: GR_RESULT)
        requires
            result == GR_RESULT::GR_SUCCESS,
    {
    }
}

} // verus!
