//! Syncs: functions that BASS calls when something happens on a channel.
use vstd::prelude::*;

use crate::bass::error::BassError;
use crate::result::check;
use crate::calls;
use crate::BassResult;

verus! {

/// A sync set on a channel, with the state that its function needs. You must hold
/// the `BassSync` until you no longer wish to have the sync; `remove` removes it.
#[derive(Debug)]
pub struct BassSync<U> {
    pub(crate) sync: u32,
    pub(crate) channel: u32,
    /// The state that the sync's function uses; it must outlive the sync.
    pub(crate) user: U,
}

impl<U> BassSync<U> {
    /// The handle of the sync.
    pub closed spec fn spec_sync(&self) -> u32 {
        self.sync
    }

    /// The channel that the sync is set on.
    pub closed spec fn spec_channel(&self) -> u32 {
        self.channel
    }

    /// The state that the sync keeps alive.
    pub closed spec fn spec_user(&self) -> U {
        self.user
    }

    /// The sync for the handle that `BASS_ChannelSetSync` returned on `channel`;
    /// 0 means that setting it failed, with the error that BASS reports, and
    /// `user` is dropped.
    pub fn from_set_result(sync: u32, channel: u32, user: U) -> (r: BassResult<Self>)
        ensures
            sync != 0 <==> r is Ok,
            r matches Ok(s) ==> s.spec_sync() == sync && s.spec_channel() == channel && s.spec_user() == user,
    {
        if sync != 0 {
            Ok(BassSync { sync, channel, user })
        } else {
            Err(BassError::get())
        }
    }

    /// The handle of the sync.
    pub fn handle(&self) -> (r: u32)
        ensures
            r == self.spec_sync(),
    {
        self.sync
    }

    /// The channel that the sync is set on.
    pub fn channel(&self) -> (r: u32)
        ensures
            r == self.spec_channel(),
    {
        self.channel
    }
}

impl<U> PartialEq for BassSync<U> {
    /// Two syncs are equal when they have the same handle.
    fn eq(&self, other: &Self) -> (r: bool) {
        self.sync == other.sync
    }
}

impl<U> vstd::std_specs::cmp::PartialEqSpecImpl for BassSync<U> {
    open spec fn obeys_eq_spec() -> bool {
        true
    }

    open spec fn eq_spec(&self, other: &Self) -> bool {
        self.spec_sync() == other.spec_sync()
    }
}

impl<U> Eq for BassSync<U> {}

impl<U> BassSync<U> {
    /// Removes the sync from its channel.
    pub fn remove(&self) -> (r: BassResult<()>)
        ensures
            exists|answer: i32|
                #[trigger] calls::returned_channel_remove_sync(self.spec_channel(), self.spec_sync(), answer)
                    && (answer != 0 <==> r is Ok),
    {
        let answer = calls::channel_remove_sync(self.channel, self.sync);
        assert(calls::returned_channel_remove_sync(self.spec_channel(), self.spec_sync(), answer));
        check(answer != 0)
    }
}

} // verus!
