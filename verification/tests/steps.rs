use bass_rs::bass::error::BassErrorCode;
use bass_rs::bass::{after_free, after_set_device, device_number, free_step, init_config, init_options, FreeStep, SetDeviceStep};
use bass_rs::channel::levels_of;
use bass_rs::fx::eq::band_fx_handle;
use bass_rs::channel::{flags_to_clear, flags_to_set};
use bass_rs::functions::bass_bool;
use bass_rs::sample::{channel_buffer, channel_flags, channels_written, stream_flags};

#[test]
fn set_device_answers() {
    assert_eq!(after_set_device(None), SetDeviceStep::Free);
    assert_eq!(after_set_device(Some(BassErrorCode::BassErrorDevice)), SetDeviceStep::Stop);
    assert_eq!(after_set_device(Some(BassErrorCode::BassErrorInit)), SetDeviceStep::Skip);
    assert_eq!(after_set_device(Some(BassErrorCode::BassErrorUnknown)), SetDeviceStep::Free);
}

#[test]
fn free_answers() {
    assert_eq!(after_free(None), FreeStep::Next);
    assert_eq!(after_free(Some(BassErrorCode::BassErrorBusy)), FreeStep::Busy);
    assert_eq!(after_free(Some(BassErrorCode::BassErrorInit)), FreeStep::Stop);
}

#[test]
fn init_options_turn_on_unicode_and_float_dsp() {
    assert_eq!(init_options(), vec![(bass_sys::BASS_CONFIG_UNICODE, 1), (bass_sys::BASS_CONFIG_FLOATDSP, 1)]);
}

#[test]
fn init_config_ends_with_unicode() {
    let config = init_config(&[(bass_sys::BASS_CONFIG_UNICODE, 0), (7, 8)]);
    assert_eq!(
        config,
        vec![
            (bass_sys::BASS_CONFIG_DEV_DEFAULT, 1),
            (bass_sys::BASS_CONFIG_UPDATEPERIOD, 20),
            (bass_sys::BASS_CONFIG_BUFFER, 500),
            (0x2000, 10),
            (bass_sys::BASS_CONFIG_UNICODE, 0),
            (7, 8),
            (bass_sys::BASS_CONFIG_UNICODE, 1),
        ]
    );
    assert_eq!(init_config(&[]).len(), 5);
}

#[test]
fn call_arguments() {
    assert_eq!(bass_bool(true), 1);
    assert_eq!(bass_bool(false), 0);
    assert_eq!(flags_to_set(0x40), (0x40, 0x40));
    assert_eq!(flags_to_clear(0x40), (0, 0x40));
    assert_eq!(channel_flags(0b111), 0b101);
    assert_eq!(stream_flags(0b001), 0b011);
    assert_eq!(device_number(-1), u32::MAX);
    assert_eq!(device_number(3), 3);
}

#[test]
fn free_step_moves_to_the_next_device() {
    // Freed, then the next device.
    assert_eq!(free_step(1, None, None), Ok(Some(2)));
    // Never initialised: skipped, whatever `free_answer` holds.
    assert_eq!(free_step(3, Some(BassErrorCode::BassErrorInit), Some(BassErrorCode::BassErrorBusy)), Ok(Some(4)));
    // Another failure of BASS_SetDevice still frees, and goes on.
    assert_eq!(free_step(2, Some(BassErrorCode::BassErrorMem), None), Ok(Some(3)));
}

#[test]
fn free_step_ends_the_list() {
    assert_eq!(free_step(5, Some(BassErrorCode::BassErrorDevice), None), Ok(None));
    assert_eq!(free_step(5, None, Some(BassErrorCode::BassErrorInit)), Ok(None));
    assert_eq!(free_step(0x1FFFF, None, None), Ok(None));
    assert_eq!(free_step(0x1FFFE, None, None), Ok(Some(0x1FFFF)));
    assert_eq!(free_step(u32::MAX, Some(BassErrorCode::BassErrorInit), None), Ok(None));
}

#[test]
fn free_step_fails_on_a_busy_device() {
    assert_eq!(free_step(1, None, Some(BassErrorCode::BassErrorBusy)), Err(BassErrorCode::BassErrorBusy));
}

#[test]
fn levels_split_the_value() {
    assert_eq!(levels_of(0x1234_5678), Ok((0x1234, 0x5678)));
    assert_eq!(levels_of(0x0000_8000), Ok((0, 0x8000)));
    assert_eq!(levels_of(0xFFFF_FFFE), Ok((0xFFFF, 0xFFFE)));
    assert_eq!(levels_of(0), Ok((0, 0)));
}

#[test]
fn a_band_keeps_its_effect() {
    let mut stored = Some(0x55u32);
    assert_eq!(band_fx_handle(&mut stored, 7), Ok(0x55));
    assert_eq!(stored, Some(0x55));
}

#[test]
fn channel_buffers() {
    assert_eq!(channel_buffer(3), Ok(vec![0, 0, 0]));
    assert_eq!(channel_buffer(0), Ok(vec![]));
    assert_eq!(channels_written(vec![4, 5, 6], 2), Ok(vec![4, 5]));
    assert_eq!(channels_written(vec![4, 5, 6], 3), Ok(vec![4, 5, 6]));
    assert_eq!(channels_written(vec![4, 5, 6], 9), Ok(vec![4, 5, 6]));
    assert_eq!(channels_written(vec![4, 5, 6], 0), Ok(vec![]));
}
