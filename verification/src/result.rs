//! Turning the raw result of a BASS call into a `Result`.
//!
//! BASS signals failure by a sentinel (`FALSE`, a zero handle, or `-1`) and keeps
//! the reason as the error code of the thread. Each function here takes the raw
//! value that a call returned and fails exactly when it is the sentinel; the error
//! it fails with is the code that BASS reports at that moment.
use vstd::prelude::*;
use crate::bass::error::{spec_from_code, BassError, BassErrorCode};
use crate::calls;

verus! {

/// A result whose error is a [`BassError`].
pub type BassResult<T> = Result<T, BassError>;

/// `Ok(())` when `ok`, else the error that BASS reported last.
pub fn result(ok: bool) -> (r: Result<(), BassError>)
    ensures
        ok <==> r is Ok,
        r matches Err(e) ==> calls::returned_error_get_code(e.code),
{
    if ok {
        Ok(())
    } else {
        Err(BassError::default())
    }
}

/// `Ok(())` when the BOOL that a call returned is true, else the error code of the thread.
pub fn check(ok: bool) -> (r: Result<(), BassErrorCode>)
    ensures
        ok <==> r is Ok,
        r matches Err(e) ==> exists|code: i32|
            #[trigger] calls::returned_error_get_code(code) && e == spec_from_code(code),
{
    if ok {
        Ok(())
    } else {
        Err(BassError::get())
    }
}

/// A handle that a creating call returned; 0 means that the call failed.
pub fn check_handle(handle: u32) -> (r: Result<u32, BassErrorCode>)
    ensures
        handle != 0 <==> r is Ok,
        r matches Ok(h) ==> h == handle,
        r matches Err(e) ==> exists|code: i32|
            #[trigger] calls::returned_error_get_code(code) && e == spec_from_code(code),
{
    if handle != 0 {
        Ok(handle)
    } else {
        Err(BassError::get())
    }
}

/// A 32-bit value that a call returned; `-1` (all bits set) means that the call failed.
pub fn check_dword(value: u32) -> (r: Result<u32, BassErrorCode>)
    ensures
        value != u32::MAX <==> r is Ok,
        r matches Ok(v) ==> v == value,
        r matches Err(e) ==> exists|code: i32|
            #[trigger] calls::returned_error_get_code(code) && e == spec_from_code(code),
{
    if value != u32::MAX {
        Ok(value)
    } else {
        Err(BassError::get())
    }
}

/// A 64-bit value that a call returned; `-1` (all bits set) means that the call failed.
pub fn check_qword(value: u64) -> (r: Result<u64, BassErrorCode>)
    ensures
        value != u64::MAX <==> r is Ok,
        r matches Ok(v) ==> v == value,
        r matches Err(e) ==> exists|code: i32|
            #[trigger] calls::returned_error_get_code(code) && e == spec_from_code(code),
{
    if value != u64::MAX {
        Ok(value)
    } else {
        Err(BassError::get())
    }
}

} // verus!
