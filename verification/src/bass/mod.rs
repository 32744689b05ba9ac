//! The BASS engine: devices, plugins and the error of the last call.
use vstd::prelude::*;

pub mod device;
pub mod error;
pub mod plugin;

use error::{BassError, BassErrorCode};
use plugin::Plugin;
use crate::consts;
use crate::functions::bass_bool;
use crate::result::check;
use crate::calls;
use crate::channel::handle::HasHandle;
use crate::BassResult;

verus! {

/// How to bring up BASS: the device (the default device when `None`) and the
/// output sample rate.
pub struct BassOptions {
    pub device: Option<i32>,
    pub frequency: u32,
}

impl Default for BassOptions {
    fn default() -> (r: Self)
        ensures
            r.device is None,
            r.frequency == 44100,
    {
        Self { device: None, frequency: 44100 }
    }
}

/// The options that `Bass::from_init_result` sets once BASS is initialised:
/// UTF-8 information structures and floating-point DSP.
pub fn init_options() -> (r: Vec<(u32, u32)>)
    ensures
        r@ == seq![(consts::BASS_CONFIG_UNICODE, 1u32), (consts::BASS_CONFIG_FLOATDSP, 1u32)],
{
    let mut r: Vec<(u32, u32)> = Vec::new();
    r.push((consts::BASS_CONFIG_UNICODE, 1));
    r.push((consts::BASS_CONFIG_FLOATDSP, 1));
    r
}

/// The options that a managed instance sets before `BASS_Init`, in order: the
/// default device enabled, an update period of 20 ms, a 500 ms buffer, the
/// option numbered `BASS_MIXER_BUFFER` set to 10, then `config`, then UTF-8 information structures. UTF-8 is
/// always set last, so no entry of `config` can turn it off.
pub fn init_config(config: &[(u32, u32)]) -> (r: Vec<(u32, u32)>)
    ensures
        r@ == seq![
            (consts::BASS_CONFIG_DEV_DEFAULT, 1u32),
            (consts::BASS_CONFIG_UPDATEPERIOD, 20u32),
            (consts::BASS_CONFIG_BUFFER, 500u32),
            (consts::BASS_MIXER_BUFFER, 10u32),
        ] + config@ + seq![(consts::BASS_CONFIG_UNICODE, 1u32)],
{
    let mut r: Vec<(u32, u32)> = Vec::new();
    r.push((consts::BASS_CONFIG_DEV_DEFAULT, 1));
    r.push((consts::BASS_CONFIG_UPDATEPERIOD, 20));
    r.push((consts::BASS_CONFIG_BUFFER, 500));
    r.push((consts::BASS_MIXER_BUFFER, 10));
    let ghost head = r@;
    let mut i: usize = 0;
    while i < config.len()
        invariant
            0 <= i <= config@.len(),
            head.len() == 4,
            r@ == head + config@.subrange(0, i as int),
        decreases config@.len() - i,
    {
        r.push(config[i]);
        i = i + 1;
        assert(config@.subrange(0, i as int) == config@.subrange(0, i - 1) + seq![config@[i - 1]]);
    }
    assert(config@.subrange(0, config@.len() as int) == config@);
    r.push((consts::BASS_CONFIG_UNICODE, 1));
    r
}

/// `BASS_SetConfig(option, value)` was called.
pub open spec fn config_was_set(option: u32, value: u32) -> bool {
    exists|answer: i32| #[trigger] calls::returned_set_config(option, value, answer)
}

/// Sets each option of `config` with `BASS_SetConfig`, in order. BASS's answers
/// are not read: an option that BASS refuses is left as it was.
pub fn apply_config(config: &[(u32, u32)])
    ensures
        forall|i: int| 0 <= i < config@.len() ==> #[trigger] config_was_set(config@[i].0, config@[i].1),
{
    let mut i: usize = 0;
    while i < config.len()
        invariant
            0 <= i <= config@.len(),
            forall|j: int| 0 <= j < i ==> #[trigger] config_was_set(config@[j].0, config@[j].1),
        decreases config@.len() - i,
    {
        let (option, value) = config[i];
        let answer = calls::set_config(option, value);
        assert(calls::returned_set_config(config@[i as int].0, config@[i as int].1, answer));
        assert(config_was_set(config@[i as int].0, config@[i as int].1));
        i = i + 1;
    }
}

/// The device number that BASS takes for `device`: the same 32 bits, unsigned.
pub fn device_number(device: i32) -> (r: u32)
    ensures
        r == device as u32,
{
    device as u32
}

/// What freeing the devices does after `BASS_SetDevice` answered for a device.
#[derive(Debug, Clone, Copy, PartialEq, Eq, Structural)]
pub enum SetDeviceStep {
    /// Free the device.
    Free,
    /// The device was never initialised: go on with the next one.
    Skip,
    /// There is no such device: the list has ended.
    Stop,
}

/// What freeing the devices does after `BASS_Free` answered.
#[derive(Debug, Clone, Copy, PartialEq, Eq, Structural)]
pub enum FreeStep {
    /// Go on with the next device.
    Next,
    /// The device is being reinitialised: give up with `BassErrorBusy`.
    Busy,
    /// Stop freeing.
    Stop,
}

/// The step after `BASS_SetDevice` answered `error` (`None` when it succeeded).
pub open spec fn spec_after_set_device(error: Option<BassErrorCode>) -> SetDeviceStep {
    match error {
        None => SetDeviceStep::Free,
        Some(BassErrorCode::BassErrorDevice) => SetDeviceStep::Stop,
        Some(BassErrorCode::BassErrorInit) => SetDeviceStep::Skip,
        Some(_) => SetDeviceStep::Free,
    }
}

/// The step after `BASS_Free` answered `error` (`None` when it succeeded).
pub open spec fn spec_after_free(error: Option<BassErrorCode>) -> FreeStep {
    match error {
        None => FreeStep::Next,
        Some(BassErrorCode::BassErrorBusy) => FreeStep::Busy,
        Some(_) => FreeStep::Stop,
    }
}

/// The device after `device` in the list that is freed, which ends below
/// `BASS_NODEVICE`.
pub open spec fn spec_next_device(device: u32) -> Option<u32> {
    if device + 1 < consts::BASS_NODEVICE {
        Some((device + 1) as u32)
    } else {
        None
    }
}

/// One step of freeing the devices: the device to go on with (`None` when the
/// loop ends) after `BASS_SetDevice(device)` answered `set_answer` and, where
/// that step frees the device, `BASS_Free` answered `free_answer`.
pub open spec fn spec_free_step(
    device: u32,
    set_answer: Option<BassErrorCode>,
    free_answer: Option<BassErrorCode>,
) -> Result<Option<u32>, BassErrorCode> {
    match spec_after_set_device(set_answer) {
        SetDeviceStep::Stop => Ok(None),
        SetDeviceStep::Skip => Ok(spec_next_device(device)),
        SetDeviceStep::Free => match spec_after_free(free_answer) {
            FreeStep::Next => Ok(spec_next_device(device)),
            FreeStep::Busy => Err(BassErrorCode::BassErrorBusy),
            FreeStep::Stop => Ok(None),
        },
    }
}

/// The step after `BASS_SetDevice` answered: `None` when it succeeded, else the
/// error that BASS reported.
pub fn after_set_device(error: Option<BassErrorCode>) -> (r: SetDeviceStep)
    ensures
        r == spec_after_set_device(error),
        error is None ==> r == SetDeviceStep::Free,
        error == Some(BassErrorCode::BassErrorDevice) ==> r == SetDeviceStep::Stop,
        error == Some(BassErrorCode::BassErrorInit) ==> r == SetDeviceStep::Skip,
        error matches Some(e) && e != BassErrorCode::BassErrorDevice && e != BassErrorCode::BassErrorInit
            ==> r == SetDeviceStep::Free,
{
    match error {
        None => SetDeviceStep::Free,
        Some(e) => {
            if e == BassErrorCode::BassErrorDevice {
                SetDeviceStep::Stop
            } else if e == BassErrorCode::BassErrorInit {
                SetDeviceStep::Skip
            } else {
                SetDeviceStep::Free
            }
        },
    }
}

/// The step after `BASS_Free` answered: `None` when it succeeded, else the error
/// that BASS reported.
pub fn after_free(error: Option<BassErrorCode>) -> (r: FreeStep)
    ensures
        r == spec_after_free(error),
        error is None ==> r == FreeStep::Next,
        error == Some(BassErrorCode::BassErrorBusy) ==> r == FreeStep::Busy,
        error matches Some(e) && e != BassErrorCode::BassErrorBusy ==> r == FreeStep::Stop,
{
    match error {
        None => FreeStep::Next,
        Some(e) => {
            if e == BassErrorCode::BassErrorBusy {
                FreeStep::Busy
            } else {
                FreeStep::Stop
            }
        },
    }
}

/// One step of freeing the devices 1, 2, ... below `BASS_NODEVICE`. After
/// `BASS_SetDevice(device)` answered `set_answer` (`None` when it succeeded) and,
/// where that answer calls for it, `BASS_Free` answered `free_answer`, it gives
/// the device to go on with: `device + 1` below `BASS_NODEVICE` once the device
/// was skipped (never initialised) or freed, `None` when the list has ended or a
/// device could not be freed, and `BassErrorBusy` when a device is busy being
/// reinitialised. `free_answer` is not read where the device is not freed.
pub fn free_step(
    device: u32,
    set_answer: Option<BassErrorCode>,
    free_answer: Option<BassErrorCode>,
) -> (r: Result<Option<u32>, BassErrorCode>)
    ensures
        r == spec_free_step(device, set_answer, free_answer),
{
    let next = if device < consts::BASS_NODEVICE - 1 {
        Some(device + 1)
    } else {
        None
    };
    match after_set_device(set_answer) {
        SetDeviceStep::Stop => Ok(None),
        SetDeviceStep::Skip => Ok(next),
        SetDeviceStep::Free => match after_free(free_answer) {
            FreeStep::Next => Ok(next),
            FreeStep::Busy => Err(BassErrorCode::BassErrorBusy),
            FreeStep::Stop => Ok(None),
        },
    }
}

/// Freeing the devices moves through the numbers one at a time and never stops at
/// a device that was never initialised or that it freed: after either it goes on
/// with `device + 1` while that is below `BASS_NODEVICE`. It ends early only
/// where BASS answers that there is no such device, or where `BASS_Free` fails.
pub proof fn lemma_free_step_goes_on(
    device: u32,
    set_answer: Option<BassErrorCode>,
    free_answer: Option<BassErrorCode>,
)
    ensures
        spec_free_step(device, set_answer, free_answer) matches Ok(Some(n)) ==> n == device + 1
            && n < consts::BASS_NODEVICE,
        set_answer == Some(BassErrorCode::BassErrorInit) && device + 1 < consts::BASS_NODEVICE
            ==> spec_free_step(device, set_answer, free_answer) == Ok::<Option<u32>, BassErrorCode>(
            Some((device + 1) as u32),
        ),
        spec_after_set_device(set_answer) == SetDeviceStep::Free && free_answer is None && device
            + 1 < consts::BASS_NODEVICE ==> spec_free_step(device, set_answer, free_answer) == Ok::<
            Option<u32>,
            BassErrorCode,
        >(Some((device + 1) as u32)),
        spec_free_step(device, set_answer, free_answer) == Ok::<Option<u32>, BassErrorCode>(None)
            ==> set_answer == Some(BassErrorCode::BassErrorDevice) || free_answer is Some
            || device + 1 >= consts::BASS_NODEVICE,
{
}

/// `BASS_SetDevice(device)` was called.
pub open spec fn device_selected(device: u32) -> bool {
    exists|answer: i32| #[trigger] calls::returned_set_device(device, answer)
}

/// `BASS_Free` was called and answered FALSE.
pub open spec fn free_failed() -> bool {
    exists|answer: i32| #[trigger] calls::returned_free_device(answer) && answer == 0
}

/// `BASS_ErrorGetCode` was called and reported `e`.
pub open spec fn bass_reported(e: BassErrorCode) -> bool {
    exists|code: i32| #[trigger] calls::returned_error_get_code(code) && error::spec_from_code(code) == e
}

/// `BASS_ErrorGetCode` was called and reported an error other than
/// `BassErrorBusy`.
pub open spec fn bass_reported_other_than_busy() -> bool {
    exists|code: i32|
        #[trigger] calls::returned_error_get_code(code) && error::spec_from_code(code)
            != BassErrorCode::BassErrorBusy
}

/// `BASS_Free` was called.
pub open spec fn free_called() -> bool {
    exists|answer: i32| #[trigger] calls::returned_free_device(answer)
}

/// Freeing the devices ended at device `last`, where `answers[k]` is what
/// `BASS_SetDevice(k + 1)` answered: every device from 1 to `last` was selected
/// in turn, `BASS_Free` was called once a device had been selected, and the loop
/// ended at `last` because BASS answered that it is no device, or `BASS_Free`
/// failed with an error other than `BassErrorBusy`, or `last` is the last number
/// below `BASS_NODEVICE`.
pub open spec fn free_ended_at(last: u32, answers: Seq<i32>) -> bool {
    &&& 1 <= last < consts::BASS_NODEVICE
    &&& answers.len() == last
    &&& forall|k: int| 0 <= k < last ==> #[trigger] calls::returned_set_device((k + 1) as u32, answers[k])
    &&& forall|k: int| 0 <= k < last ==> #[trigger] answers[k] != 0 ==> free_called()
    &&& (answers[last - 1] == 0 && bass_reported(BassErrorCode::BassErrorDevice)) || (free_failed()
        && bass_reported_other_than_busy()) || last + 1 == consts::BASS_NODEVICE
}

/// The BASS engine, once initialised. `free` frees every device.
#[derive(Debug)]
pub struct Bass;

impl Bass {
    /// Finishes initialisation after `BASS_Init` answered `ok`: on success it sets
    /// the options of [`init_options`], on failure it returns the error that BASS
    /// reports.
    pub fn from_init_result(ok: bool) -> (r: BassResult<Self>)
        ensures
            ok <==> r is Ok,
            ok ==> config_was_set(consts::BASS_CONFIG_UNICODE, 1u32),
            ok ==> config_was_set(consts::BASS_CONFIG_FLOATDSP, 1u32),
    {
        if ok {
            let options = init_options();
            assert(options@[0] == (consts::BASS_CONFIG_UNICODE, 1u32));
            assert(options@[1] == (consts::BASS_CONFIG_FLOATDSP, 1u32));
            let slice = options.as_slice();
            apply_config(slice);
            assert(config_was_set(slice@[0].0, slice@[0].1));
            assert(config_was_set(slice@[1].0, slice@[1].1));
            Ok(Bass)
        } else {
            Err(BassError::get())
        }
    }

    /// The device of the current thread.
    pub fn device(&self) -> (r: u32)
        ensures
            calls::returned_get_device(r),
    {
        calls::get_device()
    }

    /// Selects `device` for the current thread.
    pub fn set_device(&self, device: i32) -> (r: BassResult<()>)
        ensures
            exists|answer: i32|
                #[trigger] calls::returned_set_device(device as u32, answer) && (answer != 0 <==> r is Ok),
    {
        check(calls::set_device(device_number(device)) != 0)
    }

    /// The error code of the most recent BASS call of this thread.
    pub fn get_error(&self) -> (r: BassErrorCode)
        ensures
            exists|code: i32|
                #[trigger] calls::returned_error_get_code(code) && r == error::spec_from_code(code),
    {
        BassError::get()
    }

    /// Frees the devices 1, 2, ... below `BASS_NODEVICE` in turn, each step taken
    /// by [`free_step`] from BASS's answers: a device that was never initialised
    /// is skipped, the first number that is no device ends the list, and a device
    /// that cannot be freed stops the loop. It fails, with `BassErrorBusy`, only
    /// when a device is busy being reinitialised.
    pub fn free(&self) -> (r: BassResult<()>)
        ensures
            r is Err ==> r == Err::<(), BassErrorCode>(BassErrorCode::BassErrorBusy),
            device_selected(1u32),
            r is Ok ==> exists|last: u32, answers: Seq<i32>| #[trigger] free_ended_at(last, answers),
            r is Err ==> free_failed() && bass_reported(BassErrorCode::BassErrorBusy),
    {
        let mut current: Option<u32> = Some(1);
        let ghost mut last: u32 = 0;
        let ghost mut answers: Seq<i32> = Seq::empty();
        while current.is_some()
            invariant
                last < consts::BASS_NODEVICE,
                answers.len() == last,
                current matches Some(d) ==> 1 <= d < consts::BASS_NODEVICE && d == last + 1,
                last >= 1 ==> device_selected(1u32),
                forall|k: int| 0 <= k < last ==> #[trigger] calls::returned_set_device((k + 1) as u32, answers[k]),
                forall|k: int| 0 <= k < last ==> #[trigger] answers[k] != 0 ==> free_called(),
                current is None ==> last >= 1 && free_ended_at(last, answers),
            decreases
                match current {
                    Some(d) => consts::BASS_NODEVICE - d,
                    None => 0,
                },
        {
            let device = current.unwrap();
            let raw_set = calls::set_device(device);
            assert(device_selected(device));
            let set_answer = if raw_set != 0 {
                None
            } else {
                let e = BassError::get();
                assert(bass_reported(e));
                Some(e)
            };
            let free_answer = if after_set_device(set_answer) == SetDeviceStep::Free {
                let raw_free = calls::free_device();
                assert(free_called());
                if raw_free != 0 {
                    None
                } else {
                    let e = BassError::get();
                    assert(free_failed());
                    assert(bass_reported(e));
                    Some(e)
                }
            } else {
                None
            };
            match free_step(device, set_answer, free_answer) {
                Ok(next) => {
                    proof {
                        answers = answers.push(raw_set);
                        last = device;
                        if next is None {
                            assert(free_ended_at(last, answers));
                        }
                    }
                    current = next;
                },
                Err(e) => {
                    return Err(e);
                },
            }
        }
        Ok(())
    }

    /// Unplugs `plugin`.
    pub fn unload_plugin(&self, plugin: Plugin)
        ensures
            exists|answer: i32| #[trigger] calls::returned_plugin_free(plugin.spec_handle(), answer),
    {
        let _ = calls::plugin_free(plugin.nonzero_handle());
    }

    /// Enables `plugin`. This doesn't require any checking because any `Plugin`
    /// that exists has a valid handle.
    pub fn enable_plugin(&self, plugin: &Plugin)
        ensures
            exists|answer: i32| #[trigger] calls::returned_plugin_enable(plugin.spec_handle(), 1i32, answer),
    {
        let _ = calls::plugin_enable(plugin.nonzero_handle(), bass_bool(true));
    }

    /// Disables `plugin`. This doesn't require any checking because any `Plugin`
    /// that exists has a valid handle.
    pub fn disable_plugin(&self, plugin: &Plugin)
        ensures
            exists|answer: i32| #[trigger] calls::returned_plugin_enable(plugin.spec_handle(), 0i32, answer),
    {
        let _ = calls::plugin_enable(plugin.nonzero_handle(), bass_bool(false));
    }
}

} // verus!
