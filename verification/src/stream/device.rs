//! The stream of the final output mix of a device.
use vstd::prelude::*;

use crate::channel::handle::HasHandle;
use crate::channel::Channel;

verus! {

/// The output stream of the current device.
#[derive(Debug)]
pub struct DeviceStream(u32);

impl DeviceStream {
    /// The device stream for the handle that `BASS_StreamCreate` returned for
    /// `STREAMPROC_DEVICE`. The handle is kept as it is, unchecked.
    pub fn from_handle(handle: u32) -> (r: Self)
        ensures
            r.spec_handle() == handle,
    {
        DeviceStream(handle)
    }
}

impl HasHandle for DeviceStream {
    closed spec fn spec_handle(&self) -> u32 {
        self.0
    }

    fn handle(&self) -> (h: u32) {
        self.0
    }
}

impl Channel for DeviceStream {}

} // verus!
