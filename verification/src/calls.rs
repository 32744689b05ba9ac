//! What each BASS call of this crate answered.
//!
//! `returned_X(args, answer)` holds when a call of `X` with these arguments
//! returned `answer`. BASS's answers depend on its
//! state, so nothing more is known of them; what these predicates pin down is
//! which call was made, with which arguments, and that the answer handed on is
//! the one that call gave. Each function here makes one call through `sys` and
//! states it; the rest of the crate calls BASS only through them.
use vstd::prelude::*;
use crate::sys;

verus! {

/// `BASS_ErrorGetCode()` returned `answer`.
pub closed spec fn returned_error_get_code(answer: i32) -> bool {
    call_ensures(sys::error_get_code, (), answer)
}

/// Calls `BASS_ErrorGetCode()` and hands on its answer.
pub(crate) fn error_get_code() -> (answer: i32)
    ensures
        returned_error_get_code(answer),
{
    let call = sys::error_get_code;
    call()
}

/// `BASS_SetConfig(option, value)` returned `answer`.
pub closed spec fn returned_set_config(option: u32, value: u32, answer: i32) -> bool {
    call_ensures(sys::set_config, (option, value), answer)
}

/// Calls `BASS_SetConfig(option, value)` and hands on its answer.
pub(crate) fn set_config(option: u32, value: u32) -> (answer: i32)
    ensures
        returned_set_config(option, value, answer),
{
    let call = sys::set_config;
    call(option, value)
}

/// `BASS_GetDevice()` returned `answer`.
pub closed spec fn returned_get_device(answer: u32) -> bool {
    call_ensures(sys::get_device, (), answer)
}

/// Calls `BASS_GetDevice()` and hands on its answer.
pub(crate) fn get_device() -> (answer: u32)
    ensures
        returned_get_device(answer),
{
    let call = sys::get_device;
    call()
}

/// `BASS_SetDevice(device)` returned `answer`.
pub closed spec fn returned_set_device(device: u32, answer: i32) -> bool {
    call_ensures(sys::set_device, (device,), answer)
}

/// Calls `BASS_SetDevice(device)` and hands on its answer.
pub(crate) fn set_device(device: u32) -> (answer: i32)
    ensures
        returned_set_device(device, answer),
{
    let call = sys::set_device;
    call(device)
}

/// `BASS_Free()` returned `answer`.
pub closed spec fn returned_free_device(answer: i32) -> bool {
    call_ensures(sys::free_device, (), answer)
}

/// Calls `BASS_Free()` and hands on its answer.
pub(crate) fn free_device() -> (answer: i32)
    ensures
        returned_free_device(answer),
{
    let call = sys::free_device;
    call()
}

/// `BASS_PluginFree(handle)` returned `answer`.
pub closed spec fn returned_plugin_free(handle: u32, answer: i32) -> bool {
    call_ensures(sys::plugin_free, (handle,), answer)
}

/// Calls `BASS_PluginFree(handle)` and hands on its answer.
pub(crate) fn plugin_free(handle: u32) -> (answer: i32)
    ensures
        returned_plugin_free(handle, answer),
{
    let call = sys::plugin_free;
    call(handle)
}

/// `BASS_PluginEnable(handle, enable)` returned `answer`.
pub closed spec fn returned_plugin_enable(handle: u32, enable: i32, answer: i32) -> bool {
    call_ensures(sys::plugin_enable, (handle, enable), answer)
}

/// Calls `BASS_PluginEnable(handle, enable)` and hands on its answer.
pub(crate) fn plugin_enable(handle: u32, enable: i32) -> (answer: i32)
    ensures
        returned_plugin_enable(handle, enable, answer),
{
    let call = sys::plugin_enable;
    call(handle, enable)
}

/// `BASS_SampleFree(handle)` returned `answer`.
pub closed spec fn returned_sample_free(handle: u32, answer: i32) -> bool {
    call_ensures(sys::sample_free, (handle,), answer)
}

/// Calls `BASS_SampleFree(handle)` and hands on its answer.
pub(crate) fn sample_free(handle: u32) -> (answer: i32)
    ensures
        returned_sample_free(handle, answer),
{
    let call = sys::sample_free;
    call(handle)
}

/// `BASS_SampleGetChannel(handle, flags)` returned `answer`.
pub closed spec fn returned_sample_get_channel(handle: u32, flags: u32, answer: u32) -> bool {
    call_ensures(sys::sample_get_channel, (handle, flags), answer)
}

/// Calls `BASS_SampleGetChannel(handle, flags)` and hands on its answer.
pub(crate) fn sample_get_channel(handle: u32, flags: u32) -> (answer: u32)
    ensures
        returned_sample_get_channel(handle, flags, answer),
{
    let call = sys::sample_get_channel;
    call(handle, flags)
}

/// `BASS_SampleStop(handle)` returned `answer`.
pub closed spec fn returned_sample_stop(handle: u32, answer: i32) -> bool {
    call_ensures(sys::sample_stop, (handle,), answer)
}

/// Calls `BASS_SampleStop(handle)` and hands on its answer.
pub(crate) fn sample_stop(handle: u32) -> (answer: i32)
    ensures
        returned_sample_stop(handle, answer),
{
    let call = sys::sample_stop;
    call(handle)
}

/// `BASS_StreamFree(handle)` returned `answer`.
pub closed spec fn returned_stream_free(handle: u32, answer: i32) -> bool {
    call_ensures(sys::stream_free, (handle,), answer)
}

/// Calls `BASS_StreamFree(handle)` and hands on its answer.
pub(crate) fn stream_free(handle: u32) -> (answer: i32)
    ensures
        returned_stream_free(handle, answer),
{
    let call = sys::stream_free;
    call(handle)
}

/// `BASS_StreamGetFilePosition(handle, mode)` returned `answer`.
pub closed spec fn returned_stream_get_file_position(handle: u32, mode: u32, answer: u64) -> bool {
    call_ensures(sys::stream_get_file_position, (handle, mode), answer)
}

/// Calls `BASS_StreamGetFilePosition(handle, mode)` and hands on its answer.
pub(crate) fn stream_get_file_position(handle: u32, mode: u32) -> (answer: u64)
    ensures
        returned_stream_get_file_position(handle, mode, answer),
{
    let call = sys::stream_get_file_position;
    call(handle, mode)
}

/// `BASS_ChannelGetDevice(handle)` returned `answer`.
pub closed spec fn returned_channel_get_device(handle: u32, answer: u32) -> bool {
    call_ensures(sys::channel_get_device, (handle,), answer)
}

/// Calls `BASS_ChannelGetDevice(handle)` and hands on its answer.
pub(crate) fn channel_get_device(handle: u32) -> (answer: u32)
    ensures
        returned_channel_get_device(handle, answer),
{
    let call = sys::channel_get_device;
    call(handle)
}

/// `BASS_ChannelSetDevice(handle, device)` returned `answer`.
pub closed spec fn returned_channel_set_device(handle: u32, device: u32, answer: i32) -> bool {
    call_ensures(sys::channel_set_device, (handle, device), answer)
}

/// Calls `BASS_ChannelSetDevice(handle, device)` and hands on its answer.
pub(crate) fn channel_set_device(handle: u32, device: u32) -> (answer: i32)
    ensures
        returned_channel_set_device(handle, device, answer),
{
    let call = sys::channel_set_device;
    call(handle, device)
}

/// `BASS_ChannelIsActive(handle)` returned `answer`.
pub closed spec fn returned_channel_is_active(handle: u32, answer: u32) -> bool {
    call_ensures(sys::channel_is_active, (handle,), answer)
}

/// Calls `BASS_ChannelIsActive(handle)` and hands on its answer.
pub(crate) fn channel_is_active(handle: u32) -> (answer: u32)
    ensures
        returned_channel_is_active(handle, answer),
{
    let call = sys::channel_is_active;
    call(handle)
}

/// `BASS_ChannelFlags(handle, flags, mask)` returned `answer`.
pub closed spec fn returned_channel_flags(handle: u32, flags: u32, mask: u32, answer: u32) -> bool {
    call_ensures(sys::channel_flags, (handle, flags, mask), answer)
}

/// Calls `BASS_ChannelFlags(handle, flags, mask)` and hands on its answer.
pub(crate) fn channel_flags(handle: u32, flags: u32, mask: u32) -> (answer: u32)
    ensures
        returned_channel_flags(handle, flags, mask, answer),
{
    let call = sys::channel_flags;
    call(handle, flags, mask)
}

/// `BASS_ChannelUpdate(handle, length)` returned `answer`.
pub closed spec fn returned_channel_update(handle: u32, length: u32, answer: i32) -> bool {
    call_ensures(sys::channel_update, (handle, length), answer)
}

/// Calls `BASS_ChannelUpdate(handle, length)` and hands on its answer.
pub(crate) fn channel_update(handle: u32, length: u32) -> (answer: i32)
    ensures
        returned_channel_update(handle, length, answer),
{
    let call = sys::channel_update;
    call(handle, length)
}

/// `BASS_ChannelLock(handle, lock)` returned `answer`.
pub closed spec fn returned_channel_lock(handle: u32, lock: i32, answer: i32) -> bool {
    call_ensures(sys::channel_lock, (handle, lock), answer)
}

/// Calls `BASS_ChannelLock(handle, lock)` and hands on its answer.
pub(crate) fn channel_lock(handle: u32, lock: i32) -> (answer: i32)
    ensures
        returned_channel_lock(handle, lock, answer),
{
    let call = sys::channel_lock;
    call(handle, lock)
}

/// `BASS_ChannelPlay(handle, restart)` returned `answer`.
pub closed spec fn returned_channel_play(handle: u32, restart: i32, answer: i32) -> bool {
    call_ensures(sys::channel_play, (handle, restart), answer)
}

/// Calls `BASS_ChannelPlay(handle, restart)` and hands on its answer.
pub(crate) fn channel_play(handle: u32, restart: i32) -> (answer: i32)
    ensures
        returned_channel_play(handle, restart, answer),
{
    let call = sys::channel_play;
    call(handle, restart)
}

/// `BASS_ChannelStop(handle)` returned `answer`.
pub closed spec fn returned_channel_stop(handle: u32, answer: i32) -> bool {
    call_ensures(sys::channel_stop, (handle,), answer)
}

/// Calls `BASS_ChannelStop(handle)` and hands on its answer.
pub(crate) fn channel_stop(handle: u32) -> (answer: i32)
    ensures
        returned_channel_stop(handle, answer),
{
    let call = sys::channel_stop;
    call(handle)
}

/// `BASS_ChannelPause(handle)` returned `answer`.
pub closed spec fn returned_channel_pause(handle: u32, answer: i32) -> bool {
    call_ensures(sys::channel_pause, (handle,), answer)
}

/// Calls `BASS_ChannelPause(handle)` and hands on its answer.
pub(crate) fn channel_pause(handle: u32) -> (answer: i32)
    ensures
        returned_channel_pause(handle, answer),
{
    let call = sys::channel_pause;
    call(handle)
}

/// `BASS_ChannelIsSliding(handle, attrib)` returned `answer`.
pub closed spec fn returned_channel_is_sliding(handle: u32, attrib: u32, answer: i32) -> bool {
    call_ensures(sys::channel_is_sliding, (handle, attrib), answer)
}

/// Calls `BASS_ChannelIsSliding(handle, attrib)` and hands on its answer.
pub(crate) fn channel_is_sliding(handle: u32, attrib: u32) -> (answer: i32)
    ensures
        returned_channel_is_sliding(handle, attrib, answer),
{
    let call = sys::channel_is_sliding;
    call(handle, attrib)
}

/// `BASS_ChannelGetLength(handle, mode)` returned `answer`.
pub closed spec fn returned_channel_get_length(handle: u32, mode: u32, answer: u64) -> bool {
    call_ensures(sys::channel_get_length, (handle, mode), answer)
}

/// Calls `BASS_ChannelGetLength(handle, mode)` and hands on its answer.
pub(crate) fn channel_get_length(handle: u32, mode: u32) -> (answer: u64)
    ensures
        returned_channel_get_length(handle, mode, answer),
{
    let call = sys::channel_get_length;
    call(handle, mode)
}

/// `BASS_ChannelSetPosition(handle, position, mode)` returned `answer`.
pub closed spec fn returned_channel_set_position(handle: u32, position: u64, mode: u32, answer: i32) -> bool {
    call_ensures(sys::channel_set_position, (handle, position, mode), answer)
}

/// Calls `BASS_ChannelSetPosition(handle, position, mode)` and hands on its answer.
pub(crate) fn channel_set_position(handle: u32, position: u64, mode: u32) -> (answer: i32)
    ensures
        returned_channel_set_position(handle, position, mode, answer),
{
    let call = sys::channel_set_position;
    call(handle, position, mode)
}

/// `BASS_ChannelGetPosition(handle, mode)` returned `answer`.
pub closed spec fn returned_channel_get_position(handle: u32, mode: u32, answer: u64) -> bool {
    call_ensures(sys::channel_get_position, (handle, mode), answer)
}

/// Calls `BASS_ChannelGetPosition(handle, mode)` and hands on its answer.
pub(crate) fn channel_get_position(handle: u32, mode: u32) -> (answer: u64)
    ensures
        returned_channel_get_position(handle, mode, answer),
{
    let call = sys::channel_get_position;
    call(handle, mode)
}

/// `BASS_ChannelGetLevel(handle)` returned `answer`.
pub closed spec fn returned_channel_get_level(handle: u32, answer: u32) -> bool {
    call_ensures(sys::channel_get_level, (handle,), answer)
}

/// Calls `BASS_ChannelGetLevel(handle)` and hands on its answer.
pub(crate) fn channel_get_level(handle: u32) -> (answer: u32)
    ensures
        returned_channel_get_level(handle, answer),
{
    let call = sys::channel_get_level;
    call(handle)
}

/// `BASS_ChannelRemoveSync(handle, sync)` returned `answer`.
pub closed spec fn returned_channel_remove_sync(handle: u32, sync: u32, answer: i32) -> bool {
    call_ensures(sys::channel_remove_sync, (handle, sync), answer)
}

/// Calls `BASS_ChannelRemoveSync(handle, sync)` and hands on its answer.
pub(crate) fn channel_remove_sync(handle: u32, sync: u32) -> (answer: i32)
    ensures
        returned_channel_remove_sync(handle, sync, answer),
{
    let call = sys::channel_remove_sync;
    call(handle, sync)
}

/// `BASS_ChannelRemoveDSP(handle, dsp)` returned `answer`.
pub closed spec fn returned_channel_remove_dsp(handle: u32, dsp: u32, answer: i32) -> bool {
    call_ensures(sys::channel_remove_dsp, (handle, dsp), answer)
}

/// Calls `BASS_ChannelRemoveDSP(handle, dsp)` and hands on its answer.
pub(crate) fn channel_remove_dsp(handle: u32, dsp: u32) -> (answer: i32)
    ensures
        returned_channel_remove_dsp(handle, dsp, answer),
{
    let call = sys::channel_remove_dsp;
    call(handle, dsp)
}

/// `BASS_ChannelSetLink(handle, channel)` returned `answer`.
pub closed spec fn returned_channel_set_link(handle: u32, channel: u32, answer: i32) -> bool {
    call_ensures(sys::channel_set_link, (handle, channel), answer)
}

/// Calls `BASS_ChannelSetLink(handle, channel)` and hands on its answer.
pub(crate) fn channel_set_link(handle: u32, channel: u32) -> (answer: i32)
    ensures
        returned_channel_set_link(handle, channel, answer),
{
    let call = sys::channel_set_link;
    call(handle, channel)
}

/// `BASS_ChannelRemoveLink(handle, channel)` returned `answer`.
pub closed spec fn returned_channel_remove_link(handle: u32, channel: u32, answer: i32) -> bool {
    call_ensures(sys::channel_remove_link, (handle, channel), answer)
}

/// Calls `BASS_ChannelRemoveLink(handle, channel)` and hands on its answer.
pub(crate) fn channel_remove_link(handle: u32, channel: u32) -> (answer: i32)
    ensures
        returned_channel_remove_link(handle, channel, answer),
{
    let call = sys::channel_remove_link;
    call(handle, channel)
}

/// `BASS_ChannelSetFX(handle, fx_type, priority)` returned `answer`.
pub closed spec fn returned_channel_set_fx(handle: u32, fx_type: u32, priority: i32, answer: u32) -> bool {
    call_ensures(sys::channel_set_fx, (handle, fx_type, priority), answer)
}

/// Calls `BASS_ChannelSetFX(handle, fx_type, priority)` and hands on its answer.
pub(crate) fn channel_set_fx(handle: u32, fx_type: u32, priority: i32) -> (answer: u32)
    ensures
        returned_channel_set_fx(handle, fx_type, priority, answer),
{
    let call = sys::channel_set_fx;
    call(handle, fx_type, priority)
}

/// `BASS_ChannelRemoveFX(handle, fx)` returned `answer`.
pub closed spec fn returned_channel_remove_fx(handle: u32, fx: u32, answer: i32) -> bool {
    call_ensures(sys::channel_remove_fx, (handle, fx), answer)
}

/// Calls `BASS_ChannelRemoveFX(handle, fx)` and hands on its answer.
pub(crate) fn channel_remove_fx(handle: u32, fx: u32) -> (answer: i32)
    ensures
        returned_channel_remove_fx(handle, fx, answer),
{
    let call = sys::channel_remove_fx;
    call(handle, fx)
}

} // verus!
