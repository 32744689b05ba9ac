//! Types shared by the whole crate.
use vstd::prelude::*;
use crate::bass::error::BassErrorCode;

pub mod channel;

pub use bass_sys::{BassSample, HCHANNEL, HDSP, HFX, HMUSIC, HPLUGIN, HRECORD, HSAMPLE, HSTREAM, HSYNC};
pub use bass_sys::{BYTE, DWORD, QWORD, WORD};

verus! {

/// A result whose error is a [`BassErrorCode`].
pub type BassResult<T> = Result<T, BassErrorCode>;

} // verus!
