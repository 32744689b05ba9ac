//! MOD music: MO3, IT, XM, S3M, MTM, MOD and UMX files.
use vstd::prelude::*;

use crate::bass::error::BassError;
use crate::channel::handle::HasHandle;
use crate::channel::Channel;
use crate::BassResult;

verus! {

/// A loaded MOD music.
#[derive(Debug)]
pub struct Music(u32);

impl Music {
    /// The music for the handle that `BASS_MusicLoad` returned; 0 means that
    /// loading failed, with the error that BASS reports.
    pub fn from_load_result(handle: u32) -> (r: BassResult<Self>)
        ensures
            handle != 0 <==> r is Ok,
            r matches Ok(m) ==> m.spec_handle() == handle,
    {
        if handle != 0 {
            Ok(Self(handle))
        } else {
            Err(BassError::get())
        }
    }
}

impl HasHandle for Music {
    closed spec fn spec_handle(&self) -> u32 {
        self.0
    }

    fn handle(&self) -> (h: u32) {
        self.0
    }
}

impl Channel for Music {}

} // verus!
