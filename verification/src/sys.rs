//! The calls into `bass_sys` that the verified code makes.
//!
//! Each function here makes one call and nothing else. What comes back depends on
//! the state of the BASS engine (devices, handles, the last error of the thread),
//! so no function here promises anything of its result; the callers state what
//! holds of every outcome. Every call can also panic: bass-sys loads the BASS
//! library and each symbol lazily and panics when it cannot, so none is claimed
//! not to unwind.
use vstd::prelude::*;

verus! {

/// `BASS_ErrorGetCode`: the error code of the most recent BASS call on this thread. Nothing is claimed of the value: it depends on what BASS did before.
#[verifier::external_body]
pub(crate) fn error_get_code() -> i32 {
    bass_sys::BASS_ErrorGetCode()
}

/// `BASS_SetConfig`: sets a configuration option. Nothing is claimed of the returned BOOL: it depends on the state of BASS.
#[verifier::external_body]
pub(crate) fn set_config(option: u32, value: u32) -> i32 {
    bass_sys::BASS_SetConfig(option, value)
}

/// `BASS_GetDevice`: the device of the current thread. Nothing is claimed of the value: it depends on the state of BASS.
#[verifier::external_body]
pub(crate) fn get_device() -> u32 {
    bass_sys::BASS_GetDevice()
}

/// `BASS_SetDevice`: selects the device of the current thread. Nothing is claimed of the returned BOOL.
#[verifier::external_body]
pub(crate) fn set_device(device: u32) -> i32 {
    bass_sys::BASS_SetDevice(device)
}

/// `BASS_Free`: frees the current device. Nothing is claimed of the returned BOOL.
#[verifier::external_body]
pub(crate) fn free_device() -> i32 {
    bass_sys::BASS_Free()
}

/// `BASS_PluginFree`: unplugs a plugin. Nothing is claimed of the returned BOOL.
#[verifier::external_body]
pub(crate) fn plugin_free(handle: u32) -> i32 {
    bass_sys::BASS_PluginFree(handle)
}

/// `BASS_PluginEnable`: enables or disables a plugin. Nothing is claimed of the returned BOOL.
#[verifier::external_body]
pub(crate) fn plugin_enable(handle: u32, enable: i32) -> i32 {
    bass_sys::BASS_PluginEnable(handle, enable)
}

/// `BASS_SampleFree`: frees a sample. Nothing is claimed of the returned BOOL.
#[verifier::external_body]
pub(crate) fn sample_free(handle: u32) -> i32 {
    bass_sys::BASS_SampleFree(handle)
}

/// `BASS_SampleGetChannel`: a channel (or stream) of a sample, 0 on failure. Nothing is claimed of the value.
#[verifier::external_body]
pub(crate) fn sample_get_channel(handle: u32, flags: u32) -> u32 {
    bass_sys::BASS_SampleGetChannel(handle, flags)
}

/// `BASS_SampleStop`: stops every channel of a sample. Nothing is claimed of the returned BOOL.
#[verifier::external_body]
pub(crate) fn sample_stop(handle: u32) -> i32 {
    bass_sys::BASS_SampleStop(handle)
}

/// `BASS_StreamFree`: frees a stream. Nothing is claimed of the returned BOOL.
#[verifier::external_body]
pub(crate) fn stream_free(handle: u32) -> i32 {
    bass_sys::BASS_StreamFree(handle)
}

/// `BASS_StreamGetFilePosition`: a file position of a stream. Nothing is claimed of the value.
#[verifier::external_body]
pub(crate) fn stream_get_file_position(handle: u32, mode: u32) -> u64 {
    bass_sys::BASS_StreamGetFilePosition(handle, mode)
}

/// `BASS_ChannelGetDevice`: the device of a channel, -1 on failure. Nothing is claimed of the value.
#[verifier::external_body]
pub(crate) fn channel_get_device(handle: u32) -> u32 {
    bass_sys::BASS_ChannelGetDevice(handle)
}

/// `BASS_ChannelSetDevice`: moves a channel to a device. Nothing is claimed of the returned BOOL.
#[verifier::external_body]
pub(crate) fn channel_set_device(handle: u32, device: u32) -> i32 {
    bass_sys::BASS_ChannelSetDevice(handle, device)
}

/// `BASS_ChannelIsActive`: the playback state of a channel. Nothing is claimed of the value.
#[verifier::external_body]
pub(crate) fn channel_is_active(handle: u32) -> u32 {
    bass_sys::BASS_ChannelIsActive(handle)
}

/// `BASS_ChannelFlags`: sets and reads the flags of a channel, -1 on failure. Nothing is claimed of the value.
#[verifier::external_body]
pub(crate) fn channel_flags(handle: u32, flags: u32, mask: u32) -> u32 {
    bass_sys::BASS_ChannelFlags(handle, flags, mask)
}

/// `BASS_ChannelUpdate`: updates the playback buffer of a channel. Nothing is claimed of the returned BOOL.
#[verifier::external_body]
pub(crate) fn channel_update(handle: u32, length: u32) -> i32 {
    bass_sys::BASS_ChannelUpdate(handle, length)
}

/// `BASS_ChannelLock`: locks or unlocks a channel. Nothing is claimed of the returned BOOL.
#[verifier::external_body]
pub(crate) fn channel_lock(handle: u32, lock: i32) -> i32 {
    bass_sys::BASS_ChannelLock(handle, lock)
}

/// `BASS_ChannelPlay`: starts or resumes a channel. Nothing is claimed of the returned BOOL.
#[verifier::external_body]
pub(crate) fn channel_play(handle: u32, restart: i32) -> i32 {
    bass_sys::BASS_ChannelPlay(handle, restart)
}

/// `BASS_ChannelStop`: stops a channel. Nothing is claimed of the returned BOOL.
#[verifier::external_body]
pub(crate) fn channel_stop(handle: u32) -> i32 {
    bass_sys::BASS_ChannelStop(handle)
}

/// `BASS_ChannelPause`: pauses a channel. Nothing is claimed of the returned BOOL.
#[verifier::external_body]
pub(crate) fn channel_pause(handle: u32) -> i32 {
    bass_sys::BASS_ChannelPause(handle)
}

/// `BASS_ChannelIsSliding`: whether an attribute of a channel is sliding. Nothing is claimed of the returned BOOL.
#[verifier::external_body]
pub(crate) fn channel_is_sliding(handle: u32, attrib: u32) -> i32 {
    bass_sys::BASS_ChannelIsSliding(handle, attrib)
}

/// `BASS_ChannelGetLength`: the length of a channel, -1 on failure. Nothing is claimed of the value.
#[verifier::external_body]
pub(crate) fn channel_get_length(handle: u32, mode: u32) -> u64 {
    bass_sys::BASS_ChannelGetLength(handle, mode)
}

/// `BASS_ChannelSetPosition`: seeks a channel. Nothing is claimed of the returned BOOL.
#[verifier::external_body]
pub(crate) fn channel_set_position(handle: u32, position: u64, mode: u32) -> i32 {
    bass_sys::BASS_ChannelSetPosition(handle, position, mode)
}

/// `BASS_ChannelGetPosition`: the position of a channel, -1 on failure. Nothing is claimed of the value.
#[verifier::external_body]
pub(crate) fn channel_get_position(handle: u32, mode: u32) -> u64 {
    bass_sys::BASS_ChannelGetPosition(handle, mode)
}

/// `BASS_ChannelGetLevel`: the peak levels of a channel packed in one value, -1 on failure. Nothing is claimed of the value.
#[verifier::external_body]
pub(crate) fn channel_get_level(handle: u32) -> u32 {
    bass_sys::BASS_ChannelGetLevel(handle)
}

/// `BASS_ChannelRemoveSync`: removes a sync. Nothing is claimed of the returned BOOL.
#[verifier::external_body]
pub(crate) fn channel_remove_sync(handle: u32, sync: u32) -> i32 {
    bass_sys::BASS_ChannelRemoveSync(handle, sync)
}

/// `BASS_ChannelRemoveDSP`: removes a DSP function. Nothing is claimed of the returned BOOL.
#[verifier::external_body]
pub(crate) fn channel_remove_dsp(handle: u32, dsp: u32) -> i32 {
    bass_sys::BASS_ChannelRemoveDSP(handle, dsp)
}

/// `BASS_ChannelSetLink`: links two channels. Nothing is claimed of the returned BOOL.
#[verifier::external_body]
pub(crate) fn channel_set_link(handle: u32, channel: u32) -> i32 {
    bass_sys::BASS_ChannelSetLink(handle, channel)
}

/// `BASS_ChannelRemoveLink`: unlinks two channels. Nothing is claimed of the returned BOOL.
#[verifier::external_body]
pub(crate) fn channel_remove_link(handle: u32, channel: u32) -> i32 {
    bass_sys::BASS_ChannelRemoveLink(handle, channel)
}

/// `BASS_ChannelSetFX`: adds an effect to a channel; 0 when it fails. Nothing is claimed of the returned handle: it depends on the state of BASS.
#[verifier::external_body]
pub(crate) fn channel_set_fx(handle: u32, fx_type: u32, priority: i32) -> u32 {
    bass_sys::BASS_ChannelSetFX(handle, fx_type, priority)
}

/// `BASS_ChannelRemoveFX`: removes an effect. Nothing is claimed of the returned BOOL.
#[verifier::external_body]
pub(crate) fn channel_remove_fx(handle: u32, fx: u32) -> i32 {
    bass_sys::BASS_ChannelRemoveFX(handle, fx)
}

} // verus!
