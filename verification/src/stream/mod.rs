//! Streams: channels that play from a file, from memory, from the network or from
//! data pushed to them.
use vstd::prelude::*;

pub mod device;
pub mod dummy;
pub mod maybe;
pub mod push;

use crate::bass::error::BassError;
use crate::channel::handle::HasHandle;
use crate::channel::Channel;
use crate::result::{check, check_handle};
use crate::calls;
use crate::consts;
use crate::BassResult;

verus! {

/// What a stream must keep alive while BASS reads from it: the data of a memory
/// stream, or the state of the function that receives downloaded data.
#[derive(Debug)]
pub enum MemoryDataOrDownloadProc<P> {
    MemoryStream(Vec<u8>),
    DownloadProc(P),
}

/// A stream, and what it must keep alive while it plays. `free` frees it.
#[derive(Debug)]
pub struct Stream<P>(u32, Option<MemoryDataOrDownloadProc<P>>);

impl Stream<()> {
    /// Creating a stream from a user function is not supported; this does nothing.
    pub fn create() {
    }

    /// Creating a stream from user file functions is not supported; this does nothing.
    pub fn create_file_user() {
    }

    /// A new stream that plays the sample `handle`, created with `flags` and the
    /// stream flag of `BASS_SampleGetChannel`.
    pub(crate) fn from_sample(handle: u32, flags: u32) -> (r: BassResult<Self>)
        ensures
            r matches Ok(s) ==> s.spec_handle() != 0 && s.spec_data() is None,
            exists|answer: u32|
                #[trigger] calls::returned_sample_get_channel(handle, flags | consts::BASS_SAMCHAN_STREAM, answer)
                    && (answer != 0 <==> r is Ok) && (r matches Ok(s) ==> s.spec_handle() == answer),
    {
        let channel = calls::sample_get_channel(handle, crate::sample::stream_flags(flags));
        match check_handle(channel) {
            Ok(h) => Ok(Stream(h, None)),
            Err(e) => Err(e),
        }
    }

    /// A position in the file of the stream, of the kind that `mode` names: the
    /// answer of `BASS_StreamGetFilePosition(handle, mode)`.
    pub fn file_position(&self, mode: u32) -> (r: u64)
        ensures
            calls::returned_stream_get_file_position(self.spec_handle(), mode, r),
    {
        calls::stream_get_file_position(self.0, mode)
    }
}

impl<P> Stream<P> {
    /// What the stream keeps alive.
    pub closed spec fn spec_data(&self) -> Option<MemoryDataOrDownloadProc<P>> {
        self.1
    }

    /// The stream for the handle that a `BASS_StreamCreate*` call returned, keeping
    /// `data` alive as long as the stream lives; a zero handle means that the call
    /// failed, with the error that BASS reports, and `data` is dropped.
    pub fn from_create_result(handle: u32, data: Option<MemoryDataOrDownloadProc<P>>) -> (r: BassResult<Self>)
        ensures
            handle != 0 <==> r is Ok,
            r matches Ok(s) ==> s.spec_handle() == handle && s.spec_data() == data,
    {
        if handle != 0 {
            Ok(Stream(handle, data))
        } else {
            Err(BassError::get())
        }
    }
}

impl<P> HasHandle for Stream<P> {
    closed spec fn spec_handle(&self) -> u32 {
        self.0
    }

    fn handle(&self) -> (h: u32) {
        self.0
    }
}

impl<P> Channel for Stream<P> {}

impl<P> Stream<P> {
    /// Frees the stream. The only reason it can fail is that the stream has
    /// already been freed.
    pub fn free(&self) -> (r: BassResult<()>)
        ensures
            exists|answer: i32|
                #[trigger] calls::returned_stream_free(self.spec_handle(), answer) && (answer != 0 <==> r is Ok),
    {
        let answer = calls::stream_free(self.0);
        assert(calls::returned_stream_free(self.spec_handle(), answer));
        check(answer != 0)
    }
}

impl<P> PartialEq for Stream<P> {
    /// Two streams are equal when they stand for the same handle.
    fn eq(&self, other: &Self) -> (r: bool) {
        self.0 == other.0
    }
}

impl<P> vstd::std_specs::cmp::PartialEqSpecImpl for Stream<P> {
    open spec fn obeys_eq_spec() -> bool {
        true
    }

    open spec fn eq_spec(&self, other: &Self) -> bool {
        self.spec_handle() == other.spec_handle()
    }
}

impl<P> Eq for Stream<P> {}

/// `<u32 as Hash>::hash`: feeds the bytes of a `u32` to a hasher. Nothing is
/// claimed of the hasher's state afterwards.
pub assume_specification<H: core::hash::Hasher>[ <u32 as core::hash::Hash>::hash::<H> ](data: &u32, state: &mut H);

impl<P> core::hash::Hash for Stream<P> {
    /// A stream hashes as its handle.
    fn hash<H: core::hash::Hasher>(&self, state: &mut H) {
        self.0.hash(state)
    }
}

} // verus!
