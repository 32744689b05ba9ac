//! The parametric equaliser on the final output mix. Its bands are floating-point
//! values that reach BASS through a pointer; what is decided here is which effect
//! each band is set through.
use vstd::prelude::*;
use crate::bass::error::BassErrorCode;
use crate::consts;
use crate::result::check_handle;
use crate::calls;

verus! {

/// The effect that a band of the equaliser on `output` is set through. A band
/// that already holds an effect (`stored` is `Some`) keeps it and nothing is
/// called; otherwise a parametric-EQ effect is added to `output` with
/// `BASS_ChannelSetFX`, and the handle that BASS gave is kept in `stored`. A
/// handle of 0 fails with the error that BASS reports and leaves `stored` empty.
pub fn band_fx_handle(stored: &mut Option<u32>, output: u32) -> (r: Result<u32, BassErrorCode>)
    ensures
        *old(stored) matches Some(h) ==> r == Ok::<u32, BassErrorCode>(h) && *final(stored) == *old(stored),
        *old(stored) is None ==> (r matches Ok(h) ==> h != 0 && *final(stored) == Some(h)),
        *old(stored) is None ==> (r is Err ==> *final(stored) is None),
        *old(stored) is None ==> exists|answer: u32|
            #[trigger] calls::returned_channel_set_fx(output, consts::BASS_FX_DX8_PARAMEQ, 0i32, answer)
                && (answer != 0 <==> r is Ok) && (r matches Ok(h) ==> h == answer),
{
    match *stored {
        Some(h) => Ok(h),
        None => {
            match check_handle(calls::channel_set_fx(output, consts::BASS_FX_DX8_PARAMEQ, 0)) {
                Ok(h) => {
                    *stored = Some(h);
                    Ok(h)
                },
                Err(e) => Err(e),
            }
        },
    }
}

} // verus!
