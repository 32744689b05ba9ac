//! Bindings to the BASS audio library, over `bass_sys`.
//!
//! Every BASS call of this crate goes through [`calls`], whose contracts name the
//! call that was made, with its arguments, and the answer it gave; what comes
//! back is turned into a `Result` by the verified functions of [`result`]. The handle types free
//! what they stand for through their `free` or `remove` methods: a destructor
//! would have to be shown never to unwind, and a BASS call through bass-sys can.
pub mod bass;
pub mod calls;
pub mod channel;
pub mod consts;
pub mod dsp;
pub mod enums;
pub mod error;
pub mod functions;
pub mod fx;
pub mod music;
pub mod result;
pub mod sample;
pub mod stream;
pub mod sync;
mod sys;
pub mod types;
pub mod wide;

pub use types::{
    BassResult, BassSample, BYTE, DWORD, HCHANNEL, HDSP, HFX, HMUSIC, HPLUGIN, HRECORD, HSAMPLE, HSTREAM, HSYNC, QWORD, WORD,
};
