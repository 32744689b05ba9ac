//! Access to the BASS handle that a value stands for.
use vstd::prelude::*;

verus! {

/// A value that stands for a BASS handle.
pub trait HasHandle {
    /// The handle that this value stands for.
    spec fn spec_handle(&self) -> u32;

    /// The handle that this value stands for.
    fn handle(&self) -> (h: u32)
        ensures
            h == self.spec_handle(),
    ;
}

} // verus!
