//! DSP functions: functions that BASS calls with each block of a channel's samples.
use vstd::prelude::*;

use crate::bass::error::BassError;
use crate::result::check;
use crate::calls;
use crate::BassResult;

verus! {

/// A DSP function set on a channel, with the state it needs. `remove` removes it.
#[derive(Debug)]
pub struct BassDsp<U> {
    pub(crate) dsp: u32,
    pub(crate) channel: u32,
    /// Must be held for DSPs to function.
    pub(crate) user: U,
}

impl<U> BassDsp<U> {
    /// The handle of the dsp.
    pub closed spec fn spec_dsp(&self) -> u32 {
        self.dsp
    }

    /// The channel that the dsp is set on.
    pub closed spec fn spec_channel(&self) -> u32 {
        self.channel
    }

    /// The state that the dsp keeps alive.
    pub closed spec fn spec_user(&self) -> U {
        self.user
    }

    /// The DSP for the handle that `BASS_ChannelSetDSP` returned on `channel`;
    /// 0 means that setting it failed, with the error that BASS reports, and
    /// `user` is dropped.
    pub fn from_set_result(dsp: u32, channel: u32, user: U) -> (r: BassResult<Self>)
        ensures
            dsp != 0 <==> r is Ok,
            r matches Ok(d) ==> d.spec_dsp() == dsp && d.spec_channel() == channel && d.spec_user() == user,
    {
        if dsp != 0 {
            Ok(BassDsp { dsp, channel, user })
        } else {
            Err(BassError::get())
        }
    }
}

impl<U> BassDsp<U> {
    /// Removes the DSP function from its channel.
    pub fn remove(&self) -> (r: BassResult<()>)
        ensures
            exists|answer: i32|
                #[trigger] calls::returned_channel_remove_dsp(self.spec_channel(), self.spec_dsp(), answer)
                    && (answer != 0 <==> r is Ok),
    {
        let answer = calls::channel_remove_dsp(self.channel, self.dsp);
        assert(calls::returned_channel_remove_dsp(self.spec_channel(), self.spec_dsp(), answer));
        check(answer != 0)
    }
}

} // verus!
