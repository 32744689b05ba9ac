//! Streams that play the data that is pushed to them.
use vstd::prelude::*;

use crate::bass::error::BassError;
use crate::channel::handle::HasHandle;
use crate::result::check;
use crate::calls;
use crate::BassResult;

verus! {

/// A push stream. `free` frees it.
#[derive(Debug)]
pub struct PushStream(u32);

impl PushStream {
    /// The push stream for the handle that `BASS_StreamCreate` returned for
    /// `STREAMPROC_PUSH`; 0 means that the call failed, with the error that BASS
    /// reports.
    pub fn from_create_result(handle: u32) -> (r: BassResult<Self>)
        ensures
            handle != 0 <==> r is Ok,
            r matches Ok(s) ==> s.spec_handle() == handle,
    {
        if handle != 0 {
            Ok(Self(handle))
        } else {
            Err(BassError::get())
        }
    }
}

impl HasHandle for PushStream {
    closed spec fn spec_handle(&self) -> u32 {
        self.0
    }

    fn handle(&self) -> (h: u32) {
        self.0
    }
}

impl PushStream {
    /// Frees the stream. The only reason it can fail is that the stream has
    /// already been freed.
    pub fn free(&self) -> (r: BassResult<()>)
        ensures
            exists|answer: i32|
                #[trigger] calls::returned_stream_free(self.spec_handle(), answer) && (answer != 0 <==> r is Ok),
    {
        let answer = calls::stream_free(self.0);
        assert(calls::returned_stream_free(self.spec_handle(), answer));
        check(answer != 0)
    }
}

} // verus!
