//! Enumerations of values that BASS reports.
use vstd::prelude::*;
use crate::consts;

pub use crate::bass::error::BassErrorCode;

verus! {

/// The playback state of a channel, as `BASS_ChannelIsActive` reports it.
#[derive(Debug, Clone, Copy, PartialEq, Eq, Structural)]
pub enum ChannelState {
    BassActiveStopped,
    BassActivePlaying,
    BassActiveStalled,
    BassActivePaused,
    BassActivePausedDevice,
    BassActiveWaiting,
    BassActiveQueued,
}

impl ChannelState {
    /// The value that BASS reports for this state.
    pub open spec fn spec_value(self) -> u32 {
        match self {
            ChannelState::BassActiveStopped => consts::BASS_ACTIVE_STOPPED,
            ChannelState::BassActivePlaying => consts::BASS_ACTIVE_PLAYING,
            ChannelState::BassActiveStalled => consts::BASS_ACTIVE_STALLED,
            ChannelState::BassActivePaused => consts::BASS_ACTIVE_PAUSED,
            ChannelState::BassActivePausedDevice => consts::BASS_ACTIVE_PAUSED_DEVICE,
            ChannelState::BassActiveWaiting => consts::BASS_ACTIVE_WAITING,
            ChannelState::BassActiveQueued => consts::BASS_ACTIVE_QUEUED,
        }
    }
}

/// The state that a reported value stands for; a value that BASS does not
/// document reads as stopped.
pub open spec fn spec_channel_state(value: u32) -> ChannelState {
    if value == consts::BASS_ACTIVE_PLAYING {
        ChannelState::BassActivePlaying
    } else if value == consts::BASS_ACTIVE_STALLED {
        ChannelState::BassActiveStalled
    } else if value == consts::BASS_ACTIVE_PAUSED {
        ChannelState::BassActivePaused
    } else if value == consts::BASS_ACTIVE_PAUSED_DEVICE {
        ChannelState::BassActivePausedDevice
    } else if value == consts::BASS_ACTIVE_WAITING {
        ChannelState::BassActiveWaiting
    } else if value == consts::BASS_ACTIVE_QUEUED {
        ChannelState::BassActiveQueued
    } else {
        ChannelState::BassActiveStopped
    }
}

impl From<u32> for ChannelState {
    fn from(value: u32) -> (r: Self) {
        if value == consts::BASS_ACTIVE_STOPPED {
            ChannelState::BassActiveStopped
        } else if value == consts::BASS_ACTIVE_PLAYING {
            ChannelState::BassActivePlaying
        } else if value == consts::BASS_ACTIVE_STALLED {
            ChannelState::BassActiveStalled
        } else if value == consts::BASS_ACTIVE_PAUSED {
            ChannelState::BassActivePaused
        } else if value == consts::BASS_ACTIVE_PAUSED_DEVICE {
            ChannelState::BassActivePausedDevice
        } else if value == consts::BASS_ACTIVE_WAITING {
            ChannelState::BassActiveWaiting
        } else if value == consts::BASS_ACTIVE_QUEUED {
            ChannelState::BassActiveQueued
        } else {
            ChannelState::BassActiveStopped
        }
    }
}

impl vstd::std_specs::convert::FromSpecImpl<u32> for ChannelState {
    open spec fn obeys_from_spec() -> bool {
        true
    }

    open spec fn from_spec(v: u32) -> Self {
        spec_channel_state(v)
    }
}

impl From<ChannelState> for u32 {
    fn from(value: ChannelState) -> (r: u32) {
        match value {
            ChannelState::BassActiveStopped => consts::BASS_ACTIVE_STOPPED,
            ChannelState::BassActivePlaying => consts::BASS_ACTIVE_PLAYING,
            ChannelState::BassActiveStalled => consts::BASS_ACTIVE_STALLED,
            ChannelState::BassActivePaused => consts::BASS_ACTIVE_PAUSED,
            ChannelState::BassActivePausedDevice => consts::BASS_ACTIVE_PAUSED_DEVICE,
            ChannelState::BassActiveWaiting => consts::BASS_ACTIVE_WAITING,
            ChannelState::BassActiveQueued => consts::BASS_ACTIVE_QUEUED,
        }
    }
}

impl vstd::std_specs::convert::FromSpecImpl<ChannelState> for u32 {
    open spec fn obeys_from_spec() -> bool {
        true
    }

    open spec fn from_spec(v: ChannelState) -> u32 {
        v.spec_value()
    }
}

/// Each playback state is reported under its own number of `bass.h`: stopped 0,
/// playing 1, stalled 2, paused 3, paused by the device 4, waiting 5, queued 6.
pub proof fn lemma_channel_state_numbers()
    ensures
        ChannelState::BassActiveStopped.spec_value() == 0u32,
        ChannelState::BassActivePlaying.spec_value() == 1u32,
        ChannelState::BassActiveStalled.spec_value() == 2u32,
        ChannelState::BassActivePaused.spec_value() == 3u32,
        ChannelState::BassActivePausedDevice.spec_value() == 4u32,
        ChannelState::BassActiveWaiting.spec_value() == 5u32,
        ChannelState::BassActiveQueued.spec_value() == 6u32,
{
}

/// A state turned into its value and read back is the same state.
pub proof fn lemma_channel_state_round_trip(s: ChannelState)
    ensures
        spec_channel_state(s.spec_value()) == s,
{
}

/// A value read as a state and turned back is the same value when BASS documents
/// it (0 to 6), and 0 (stopped) otherwise.
pub proof fn lemma_channel_value_round_trip(v: u32)
    ensures
        v <= consts::BASS_ACTIVE_QUEUED ==> spec_channel_state(v).spec_value() == v,
        v > consts::BASS_ACTIVE_QUEUED ==> spec_channel_state(v) == ChannelState::BassActiveStopped,
{
}

} // verus!
