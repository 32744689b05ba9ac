//! Samples: sounds held in memory, played on channels of their own.
use vstd::prelude::*;

use crate::bass::error::BassError;
use crate::channel::handle::HasHandle;
use crate::channel::Channel;
use crate::consts;
use crate::result::{check, check_handle};
use crate::stream::Stream;
use crate::calls;
use crate::BassResult;

verus! {

/// The flags for a new channel of a sample: `flags` without the stream flag.
pub fn channel_flags(flags: u32) -> (r: u32)
    ensures
        r == flags & !consts::BASS_SAMCHAN_STREAM,
{
    flags & !consts::BASS_SAMCHAN_STREAM
}

/// The flags for a new stream of a sample: `flags` with the stream flag.
pub fn stream_flags(flags: u32) -> (r: u32)
    ensures
        r == flags | consts::BASS_SAMCHAN_STREAM,
{
    flags | consts::BASS_SAMCHAN_STREAM
}

/// A buffer for the channels of a sample: `count` zeros, where `count` is the
/// answer of `BASS_SampleGetChannels` without a buffer; `-1` (all bits set) is
/// BASS's failure answer, and gives the error that BASS reports.
pub fn channel_buffer(count: u32) -> (r: BassResult<Vec<u32>>)
    ensures
        count != u32::MAX <==> r is Ok,
        r matches Ok(v) ==> v@.len() == count && forall|i: int| 0 <= i < count ==> v@[i] == 0u32,
{
    if count == u32::MAX {
        return Err(BassError::get());
    }
    let mut v: Vec<u32> = Vec::new();
    let mut i: u32 = 0;
    while i < count
        invariant
            i <= count,
            v@.len() == i,
            forall|j: int| 0 <= j < i ==> v@[j] == 0u32,
        decreases count - i,
    {
        v.push(0);
        i = i + 1;
    }
    Ok(v)
}

/// The channels that `BASS_SampleGetChannels` wrote into `buffer`, given its
/// answer: the first `answer` entries (all of `buffer` where it is shorter).
/// `-1` (all bits set) is BASS's failure answer, and gives the error that BASS
/// reports.
pub fn channels_written(buffer: Vec<u32>, answer: u32) -> (r: BassResult<Vec<u32>>)
    ensures
        answer != u32::MAX <==> r is Ok,
        r matches Ok(v) ==> v@ == buffer@.subrange(
            0,
            if answer < buffer@.len() {
                answer as int
            } else {
                buffer@.len() as int
            },
        ),
{
    if answer == u32::MAX {
        return Err(BassError::get());
    }
    let mut channels = buffer;
    if (answer as usize) < channels.len() {
        channels.truncate(answer as usize);
    }
    Ok(channels)
}

/// A loaded sample. `free` frees it and all streams and channels created from it.
#[derive(Debug)]
pub struct Sample(u32);

impl Sample {
    /// The sample for the handle that `BASS_SampleLoad` returned; 0 means that
    /// loading failed, with the error that BASS reports.
    pub fn from_load_result(handle: u32) -> (r: BassResult<Self>)
        ensures
            handle != 0 <==> r is Ok,
            r matches Ok(s) ==> s.spec_handle() == handle,
    {
        if handle != 0 {
            Ok(Self(handle))
        } else {
            Err(BassError::get())
        }
    }

    /// A new channel that plays the sample: the handle that
    /// `BASS_SampleGetChannel` gives for `flags` with the stream flag cleared.
    pub fn get_channel(&self, flags: u32) -> (r: BassResult<SampleChannel>)
        ensures
            r matches Ok(c) ==> c.spec_handle() != 0,
            exists|answer: u32|
                #[trigger] calls::returned_sample_get_channel(
                    self.spec_handle(),
                    flags & !consts::BASS_SAMCHAN_STREAM,
                    answer,
                ) && (answer != 0 <==> r is Ok) && (r matches Ok(c) ==> c.spec_handle() == answer),
    {
        let handle = calls::sample_get_channel(self.0, channel_flags(flags));
        assert(calls::returned_sample_get_channel(
            self.spec_handle(),
            flags & !consts::BASS_SAMCHAN_STREAM,
            handle,
        ));
        match check_handle(handle) {
            Ok(h) => Ok(SampleChannel(h)),
            Err(e) => Err(e),
        }
    }

    /// A new stream that plays the sample: the handle that
    /// `BASS_SampleGetChannel` gives for `flags` with the stream flag set.
    pub fn get_stream(&self, flags: u32) -> (r: BassResult<Stream<()>>)
        ensures
            r matches Ok(s) ==> s.spec_handle() != 0 && s.spec_data() is None,
            exists|answer: u32|
                #[trigger] calls::returned_sample_get_channel(
                    self.spec_handle(),
                    flags | consts::BASS_SAMCHAN_STREAM,
                    answer,
                ) && (answer != 0 <==> r is Ok) && (r matches Ok(s) ==> s.spec_handle() == answer),
    {
        assert(self.spec_handle() == self.0);
        Stream::from_sample(self.0, flags)
    }

    /// Stops every channel of the sample.
    pub fn stop(&self) -> (r: BassResult<()>)
        ensures
            exists|answer: i32|
                #[trigger] calls::returned_sample_stop(self.spec_handle(), answer) && (answer != 0 <==> r is Ok),
    {
        let answer = calls::sample_stop(self.0);
        assert(calls::returned_sample_stop(self.spec_handle(), answer));
        check(answer != 0)
    }
}

impl HasHandle for Sample {
    closed spec fn spec_handle(&self) -> u32 {
        self.0
    }

    fn handle(&self) -> (h: u32) {
        self.0
    }
}

impl Sample {
    /// Frees the sample and every channel and stream created from it.
    pub fn free(&self) -> (r: BassResult<()>)
        ensures
            exists|answer: i32|
                #[trigger] calls::returned_sample_free(self.spec_handle(), answer) && (answer != 0 <==> r is Ok),
    {
        let answer = calls::sample_free(self.0);
        assert(calls::returned_sample_free(self.spec_handle(), answer));
        check(answer != 0)
    }
}

/// A channel that plays a sample.
pub struct SampleChannel(u32);

impl HasHandle for SampleChannel {
    closed spec fn spec_handle(&self) -> u32 {
        self.0
    }

    fn handle(&self) -> (h: u32) {
        self.0
    }
}

impl Channel for SampleChannel {}

} // verus!
