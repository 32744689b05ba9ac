//! Numeric values of the BASS interface that the library's own logic decides on.
//!
//! They are the values of `bass.h`; `tests/` compares each of them with the
//! constant of the same name that `bass_sys` exports, where it exports one.
use vstd::prelude::*;

verus! {

// Error codes, as `BASS_ErrorGetCode` reports them.
pub const BASS_OK: i32 = 0;
pub const BASS_ERROR_MEM: i32 = 1;
pub const BASS_ERROR_FILEOPEN: i32 = 2;
pub const BASS_ERROR_DRIVER: i32 = 3;
pub const BASS_ERROR_BUFLOST: i32 = 4;
pub const BASS_ERROR_HANDLE: i32 = 5;
pub const BASS_ERROR_FORMAT: i32 = 6;
pub const BASS_ERROR_POSITION: i32 = 7;
pub const BASS_ERROR_INIT: i32 = 8;
pub const BASS_ERROR_START: i32 = 9;
pub const BASS_ERROR_SSL: i32 = 10;
pub const BASS_ERROR_REINIT: i32 = 11;
pub const BASS_ERROR_ALREADY: i32 = 14;
pub const BASS_ERROR_NOTAUDIO: i32 = 17;
pub const BASS_ERROR_NOCHAN: i32 = 18;
pub const BASS_ERROR_ILLTYPE: i32 = 19;
pub const BASS_ERROR_ILLPARAM: i32 = 20;
pub const BASS_ERROR_NO3D: i32 = 21;
pub const BASS_ERROR_NOEAX: i32 = 22;
pub const BASS_ERROR_DEVICE: i32 = 23;
pub const BASS_ERROR_NOPLAY: i32 = 24;
pub const BASS_ERROR_FREQ: i32 = 25;
pub const BASS_ERROR_NOTFILE: i32 = 27;
pub const BASS_ERROR_NOHW: i32 = 29;
pub const BASS_ERROR_EMPTY: i32 = 31;
pub const BASS_ERROR_NONET: i32 = 32;
pub const BASS_ERROR_CREATE: i32 = 33;
pub const BASS_ERROR_NOFX: i32 = 34;
pub const BASS_ERROR_NOTAVAIL: i32 = 37;
pub const BASS_ERROR_DECODE: i32 = 38;
pub const BASS_ERROR_DX: i32 = 39;
pub const BASS_ERROR_TIMEOUT: i32 = 40;
pub const BASS_ERROR_FILEFORM: i32 = 41;
pub const BASS_ERROR_SPEAKER: i32 = 42;
pub const BASS_ERROR_VERSION: i32 = 43;
pub const BASS_ERROR_CODEC: i32 = 44;
pub const BASS_ERROR_ENDED: i32 = 45;
pub const BASS_ERROR_BUSY: i32 = 46;
pub const BASS_ERROR_UNSTREAMABLE: i32 = 47;
pub const BASS_ERROR_PROTOCOL: i32 = 48;
pub const BASS_ERROR_UNKNOWN: i32 = -1;

// Channel states, as `BASS_ChannelIsActive` reports them.
pub const BASS_ACTIVE_STOPPED: u32 = 0;
pub const BASS_ACTIVE_PLAYING: u32 = 1;
pub const BASS_ACTIVE_STALLED: u32 = 2;
pub const BASS_ACTIVE_PAUSED: u32 = 3;
pub const BASS_ACTIVE_PAUSED_DEVICE: u32 = 4;
pub const BASS_ACTIVE_WAITING: u32 = 5;
pub const BASS_ACTIVE_QUEUED: u32 = 6;

// Channel attributes.
pub const BASS_ATTRIB_FREQ: u32 = 1;
pub const BASS_ATTRIB_VOL: u32 = 2;
pub const BASS_ATTRIB_PAN: u32 = 3;
pub const BASS_ATTRIB_CPU: u32 = 7;
pub const BASS_ATTRIB_SRC: u32 = 8;
pub const BASS_ATTRIB_NET_RESUME: u32 = 9;
pub const BASS_ATTRIB_NORAMP: u32 = 11;
pub const BASS_ATTRIB_BITRATE: u32 = 12;
pub const BASS_ATTRIB_BUFFER: u32 = 13;
pub const BASS_ATTRIB_GRANULE: u32 = 14;
pub const BASS_ATTRIB_TAIL: u32 = 16;
pub const BASS_ATTRIB_PUSH_LIMIT: u32 = 17;
pub const BASS_ATTRIB_VOLDSP: u32 = 19;
pub const BASS_ATTRIB_VOLDSP_PRIORITY: u32 = 20;
pub const BASS_ATTRIB_MUSIC_AMPLIFY: u32 = 0x100;
pub const BASS_ATTRIB_MUSIC_PANSEP: u32 = 0x101;
pub const BASS_ATTRIB_MUSIC_PSCALER: u32 = 0x102;
pub const BASS_ATTRIB_MUSIC_BPM: u32 = 0x103;
pub const BASS_ATTRIB_MUSIC_SPEED: u32 = 0x104;
pub const BASS_ATTRIB_MUSIC_VOL_GLOBAL: u32 = 0x105;
pub const BASS_ATTRIB_MUSIC_ACTIVE: u32 = 0x106;
pub const BASS_ATTRIB_MUSIC_VOL_CHAN: u32 = 0x200;
pub const BASS_ATTRIB_MUSIC_VOL_INST: u32 = 0x300;

// Level flags of `BASS_ChannelGetLevelEx`.
pub const BASS_LEVEL_MONO: u32 = 1;
pub const BASS_LEVEL_STEREO: u32 = 2;

// Configuration options.
pub const BASS_CONFIG_BUFFER: u32 = 0;
pub const BASS_CONFIG_UPDATEPERIOD: u32 = 1;
pub const BASS_CONFIG_FLOATDSP: u32 = 9;
pub const BASS_CONFIG_DEV_DEFAULT: u32 = 36;
pub const BASS_CONFIG_UNICODE: u32 = 42;
/// `BASS_MIXER_BUFFER` of the bassmix add-on: the flag that gives a mixer
/// source a buffer. A managed instance sets this number as a configuration
/// option, to 10, before `BASS_Init`.
pub const BASS_MIXER_BUFFER: u32 = 0x2000;

// Effect types.
pub const BASS_FX_DX8_PARAMEQ: u32 = 7;

// Miscellaneous flags and values.
pub const BASS_NODEVICE: u32 = 0x20000;
pub const BASS_SAMCHAN_STREAM: u32 = 2;
pub const BASS_UNICODE: u32 = 0x8000_0000;

} // verus!
