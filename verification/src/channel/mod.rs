//! Operations that every kind of BASS channel supports.
//!
//! Each operation makes one BASS call on the channel's handle and turns the raw
//! answer into a `Result` by the functions of [`crate::result`]; what BASS answers
//! depends on the state of the engine, so the contracts state what holds of every
//! answer.
use vstd::prelude::*;

pub mod handle;

use handle::HasHandle;
use crate::bass::error::BassError;
use crate::consts;
use crate::functions::{bass_bool, make_word, spec_bass_bool, spec_make_long, spec_make_word};
use crate::result::{check, check_dword, check_qword};
use crate::calls;
use crate::BassResult;

verus! {

/// How many level values `BASS_ChannelGetLevelEx` writes for `flags`: one when
/// the mono flag is set, else two when the stereo flag is set, else one per
/// channel of the channel (`None`, as the count is the channel's own).
pub fn level_count(flags: u32) -> (r: Option<usize>)
    ensures
        flags & consts::BASS_LEVEL_MONO == consts::BASS_LEVEL_MONO ==> r == Some(1usize),
        flags & consts::BASS_LEVEL_MONO != consts::BASS_LEVEL_MONO && flags & consts::BASS_LEVEL_STEREO
            == consts::BASS_LEVEL_STEREO ==> r == Some(2usize),
        flags & consts::BASS_LEVEL_MONO != consts::BASS_LEVEL_MONO && flags & consts::BASS_LEVEL_STEREO
            != consts::BASS_LEVEL_STEREO ==> r is None,
{
    let mono = (flags & consts::BASS_LEVEL_MONO) == consts::BASS_LEVEL_MONO;
    let stereo = (flags & consts::BASS_LEVEL_STEREO) == consts::BASS_LEVEL_STEREO;
    if mono {
        Some(1)
    } else if stereo {
        Some(2)
    } else {
        None
    }
}

/// The `(flags, mask)` pair of `BASS_ChannelFlags` that sets `flag`.
pub fn flags_to_set(flag: u32) -> (r: (u32, u32))
    ensures
        r == (flag, flag),
{
    (flag, flag)
}

/// The `(flags, mask)` pair of `BASS_ChannelFlags` that clears `flag`.
pub fn flags_to_clear(flag: u32) -> (r: (u32, u32))
    ensures
        r == (0u32, flag),
{
    (0, flag)
}

/// The peak levels in `value`, the answer of `BASS_ChannelGetLevel`: its high
/// half, then its low half. `u32::MAX` is BASS's failure answer, and gives the
/// error that BASS reports.
pub fn levels_of(value: u32) -> (r: BassResult<(u16, u16)>)
    ensures
        value != u32::MAX <==> r is Ok,
        r matches Ok(levels) ==> levels == spec_make_word(value),
        r matches Ok(levels) ==> levels.0 == value / 0x10000 && levels.1 == value % 0x10000,
        r matches Ok(levels) ==> spec_make_long(levels.0, levels.1) == value,
{
    if value != u32::MAX {
        proof {
            crate::functions::lemma_make_long_of_make_word(value);
        }
        Ok(make_word(value))
    } else {
        Err(BassError::get())
    }
}

/// A BASS channel: a stream, a MOD music, a sample channel, and the like.
///
/// Each operation makes one BASS call on the channel's handle. Its contract names
/// that call, with its arguments, and says what is returned for the answer that
/// BASS gave.
pub trait Channel: HasHandle {
    /// The handle of the channel.
    fn raw_handle(&self) -> (r: u32)
        ensures
            r == self.spec_handle(),
    {
        self.handle()
    }

    /// Equivalent to `self.handle() == channel`.
    fn represents_handle(&self, channel: u32) -> (r: bool)
        ensures
            r == (self.spec_handle() == channel),
    {
        self.handle() == channel
    }

    /// Clears `flag` (`BASS_ChannelFlags` with flags 0 and mask `flag`) and
    /// returns the flags that the channel then has.
    fn flag_remove(&self, flag: u32) -> (r: BassResult<u32>)
        ensures
            r matches Ok(f) ==> f != u32::MAX,
            exists|answer: u32|
                #[trigger] calls::returned_channel_flags(self.spec_handle(), 0u32, flag, answer)
                    && (answer != u32::MAX <==> r is Ok) && (r matches Ok(f) ==> f == answer),
    {
        let (flags, mask) = flags_to_clear(flag);
        check_dword(calls::channel_flags(self.handle(), flags, mask))
    }

    /// Sets `flag` (`BASS_ChannelFlags` with flags and mask both `flag`) and
    /// returns the flags that the channel then has.
    fn flag_set(&self, flag: u32) -> (r: BassResult<u32>)
        ensures
            r matches Ok(f) ==> f != u32::MAX,
            exists|answer: u32|
                #[trigger] calls::returned_channel_flags(self.spec_handle(), flag, flag, answer)
                    && (answer != u32::MAX <==> r is Ok) && (r matches Ok(f) ==> f == answer),
    {
        let (flags, mask) = flags_to_set(flag);
        check_dword(calls::channel_flags(self.handle(), flags, mask))
    }

    /// The device that the channel plays on: the answer of
    /// `BASS_ChannelGetDevice`.
    fn get_device(&self) -> (r: BassResult<u32>)
        ensures
            r matches Ok(d) ==> d != u32::MAX,
            exists|answer: u32|
                #[trigger] calls::returned_channel_get_device(self.spec_handle(), answer)
                    && (answer != u32::MAX <==> r is Ok) && (r matches Ok(d) ==> d == answer),
    {
        check_dword(calls::channel_get_device(self.handle()))
    }

    /// The length of the channel, in the unit that `mode` names: the answer of
    /// `BASS_ChannelGetLength(handle, mode)`.
    fn get_length(&self, mode: u32) -> (r: BassResult<u64>)
        ensures
            r matches Ok(l) ==> l != u64::MAX,
            exists|answer: u64|
                #[trigger] calls::returned_channel_get_length(self.spec_handle(), mode, answer)
                    && (answer != u64::MAX <==> r is Ok) && (r matches Ok(l) ==> l == answer),
    {
        check_qword(calls::channel_get_length(self.handle(), mode))
    }

    /// The peak levels of the channel: the high 16 bits of the answer of
    /// `BASS_ChannelGetLevel`, then its low 16 bits.
    fn get_level(&self) -> (r: BassResult<(u16, u16)>)
        ensures
            r matches Ok(levels) ==> spec_make_long(levels.0, levels.1) != u32::MAX,
            exists|answer: u32|
                #[trigger] calls::returned_channel_get_level(self.spec_handle(), answer)
                    && (answer != u32::MAX <==> r is Ok) && (r matches Ok(levels) ==> levels.0 == answer
                    / 0x10000 && levels.1 == answer % 0x10000),
    {
        levels_of(calls::channel_get_level(self.handle()))
    }

    /// The position of the channel, in the unit that `mode` names: the answer of
    /// `BASS_ChannelGetPosition(handle, mode)`.
    fn get_position(&self, mode: u32) -> (r: BassResult<u64>)
        ensures
            r matches Ok(p) ==> p != u64::MAX,
            exists|answer: u64|
                #[trigger] calls::returned_channel_get_position(self.spec_handle(), mode, answer)
                    && (answer != u64::MAX <==> r is Ok) && (r matches Ok(p) ==> p == answer),
    {
        check_qword(calls::channel_get_position(self.handle(), mode))
    }

    /// The playback state of the channel: the answer of `BASS_ChannelIsActive`.
    fn is_active(&self) -> (r: u32)
        ensures
            calls::returned_channel_is_active(self.spec_handle(), r),
    {
        calls::channel_is_active(self.handle())
    }

    /// Whether the attribute `attrib` of the channel is sliding: whether
    /// `BASS_ChannelIsSliding(handle, attrib)` answered TRUE.
    fn is_sliding(&self, attrib: u32) -> (r: bool)
        ensures
            exists|answer: i32|
                #[trigger] calls::returned_channel_is_sliding(self.spec_handle(), attrib, answer) && r
                    == (answer != 0),
    {
        calls::channel_is_sliding(self.handle(), attrib) != 0
    }

    /// Locks the channel: `BASS_ChannelLock` with TRUE.
    fn lock(&self) -> (r: BassResult<()>)
        ensures
            exists|answer: i32|
                #[trigger] calls::returned_channel_lock(self.spec_handle(), 1i32, answer) && (answer != 0 <==> r is Ok),
    {
        check(calls::channel_lock(self.handle(), bass_bool(true)) != 0)
    }

    /// Unlocks the channel: `BASS_ChannelLock` with FALSE.
    fn unlock(&self) -> (r: BassResult<()>)
        ensures
            exists|answer: i32|
                #[trigger] calls::returned_channel_lock(self.spec_handle(), 0i32, answer) && (answer != 0 <==> r is Ok),
    {
        check(calls::channel_lock(self.handle(), bass_bool(false)) != 0)
    }

    /// Pauses the channel.
    fn pause(&self) -> (r: BassResult<()>)
        ensures
            exists|answer: i32|
                #[trigger] calls::returned_channel_pause(self.spec_handle(), answer) && (answer != 0 <==> r is Ok),
    {
        check(calls::channel_pause(self.handle()) != 0)
    }

    /// Starts or resumes the channel; from the start when `restart`
    /// (`BASS_ChannelPlay` with `restart` as its BOOL).
    fn play(&self, restart: bool) -> (r: BassResult<()>)
        ensures
            exists|answer: i32|
                #[trigger] calls::returned_channel_play(self.spec_handle(), spec_bass_bool(restart), answer)
                    && (answer != 0 <==> r is Ok),
    {
        check(calls::channel_play(self.handle(), bass_bool(restart)) != 0)
    }

    /// Removes the effect `fx` from the channel.
    fn remove_fx(&self, fx: u32) -> (r: BassResult<()>)
        ensures
            exists|answer: i32|
                #[trigger] calls::returned_channel_remove_fx(self.spec_handle(), fx, answer) && (answer != 0 <==> r is Ok),
    {
        check(calls::channel_remove_fx(self.handle(), fx) != 0)
    }

    /// Removes the link between this channel and `channel`.
    fn remove_link(&self, channel: u32) -> (r: BassResult<()>)
        ensures
            exists|answer: i32|
                #[trigger] calls::returned_channel_remove_link(self.spec_handle(), channel, answer) && (answer != 0 <==> r is Ok),
    {
        check(calls::channel_remove_link(self.handle(), channel) != 0)
    }

    /// Moves the channel to `device`.
    fn set_device(&self, device: u32) -> (r: BassResult<()>)
        ensures
            exists|answer: i32|
                #[trigger] calls::returned_channel_set_device(self.spec_handle(), device, answer) && (answer != 0 <==> r is Ok),
    {
        check(calls::channel_set_device(self.handle(), device) != 0)
    }

    /// Links `channel` to this channel, so that they start and stop together.
    fn set_link(&self, channel: u32) -> (r: BassResult<()>)
        ensures
            exists|answer: i32|
                #[trigger] calls::returned_channel_set_link(self.spec_handle(), channel, answer) && (answer != 0 <==> r is Ok),
    {
        check(calls::channel_set_link(self.handle(), channel) != 0)
    }

    /// Seeks the channel to `position`, in the unit that `mode` names.
    fn set_position(&self, position: u64, mode: u32) -> (r: BassResult<()>)
        ensures
            exists|answer: i32|
                #[trigger] calls::returned_channel_set_position(self.spec_handle(), position, mode, answer) && (answer != 0 <==> r is Ok),
    {
        check(calls::channel_set_position(self.handle(), position, mode) != 0)
    }

    /// Starts or resumes the channel where it is.
    ///
    /// `bass_sys` has no binding of `BASS_ChannelStart`; this resumes the channel
    /// with `BASS_ChannelPlay` without restarting it (its BOOL is FALSE).
    fn start(&self) -> (r: BassResult<()>)
        ensures
            exists|answer: i32|
                #[trigger] calls::returned_channel_play(self.spec_handle(), 0i32, answer) && (answer != 0
                    <==> r is Ok),
    {
        check(calls::channel_play(self.handle(), bass_bool(false)) != 0)
    }

    /// Stops the channel.
    fn stop(&self) -> (r: BassResult<()>)
        ensures
            exists|answer: i32|
                #[trigger] calls::returned_channel_stop(self.spec_handle(), answer) && (answer != 0 <==> r is Ok),
    {
        check(calls::channel_stop(self.handle()) != 0)
    }

    /// Renders `length` milliseconds of the channel's playback buffer.
    fn update(&self, length: u32) -> (r: BassResult<()>)
        ensures
            exists|answer: i32|
                #[trigger] calls::returned_channel_update(self.spec_handle(), length, answer) && (answer != 0 <==> r is Ok),
    {
        check(calls::channel_update(self.handle(), length) != 0)
    }
}

} // verus!
