//! Streams that carry no sound, to which effects and DSP can still be applied.
use vstd::prelude::*;

use crate::bass::error::BassError;
use crate::BassResult;

verus! {

/// A dummy stream.
#[derive(Debug)]
pub struct DummyStream(u32);

impl DummyStream {
    /// The handle that the dummy stream stands for.
    pub closed spec fn spec_handle(&self) -> u32 {
        self.0
    }

    /// The dummy stream for the handle that `BASS_StreamCreate` returned for
    /// `STREAMPROC_DUMMY`; 0 means that the call failed, with the error that BASS
    /// reports.
    pub fn from_create_result(handle: u32) -> (r: BassResult<Self>)
        ensures
            handle != 0 <==> r is Ok,
            r matches Ok(s) ==> s.spec_handle() == handle,
    {
        if handle != 0 {
            Ok(Self(handle))
        } else {
            Err(BassError::get())
        }
    }
}

} // verus!
