//! A handle that may stand for a stream.
use vstd::prelude::*;

use crate::bass::error::{BassError, BassErrorCode};
use crate::channel::handle::HasHandle;
use crate::channel::Channel;

verus! {

/// A handle that BASS accepted as a channel.
pub struct MaybeStream(u32);

impl MaybeStream {
    /// The channel `value`, given whether BASS answered a negative number of
    /// seconds when asked to convert bytes of it (which it does for a handle that
    /// is no channel); then the error is the one that BASS reports.
    pub fn from_probe(value: u32, seconds_negative: bool) -> (r: Result<Self, BassErrorCode>)
        ensures
            !seconds_negative <==> r is Ok,
            r matches Ok(s) ==> s.spec_handle() == value,
    {
        if seconds_negative {
            Err(BassError::get())
        } else {
            Ok(MaybeStream(value))
        }
    }
}

impl HasHandle for MaybeStream {
    closed spec fn spec_handle(&self) -> u32 {
        self.0
    }

    fn handle(&self) -> (h: u32) {
        self.0
    }
}

impl Channel for MaybeStream {}

} // verus!
