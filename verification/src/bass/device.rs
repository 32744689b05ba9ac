//! What BASS reports of an output device.
use vstd::prelude::*;

verus! {

/// An output device: its name, its driver and its `BASS_DEVICE_*` flags.
#[derive(Debug)]
pub struct BassDeviceInfo {
    pub name: String,
    pub driver: String,
    pub flags: u32,
}

} // verus!
