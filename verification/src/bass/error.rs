//! Error codes of BASS and the error value that carries one.
use vstd::prelude::*;
use crate::consts;
use crate::calls;
use vstd::string::StringExecFns;

verus! {

/// A BASS error code, one variant per code that BASS documents.
#[derive(Debug, Clone, Copy, PartialEq, Eq, Structural)]
pub enum BassErrorCode {
    /// all is OK
    BassOk,
    /// memory error
    BassErrorMem,
    /// can't open the file
    BassErrorFileOpen,
    /// can't find a free/valid driver
    BassErrorDriver,
    /// the sample buffer was lost
    BassErrorBufferLost,
    /// invalid handle
    BassErrorHandle,
    /// unsupported sample format
    BassErrorFormat,
    /// invalid position
    BassErrorPosition,
    /// BASS_Init has not been successfully called
    BassErrorInit,
    /// BASS_Start has not been successfully called
    BassErrorStart,
    /// SSL/HTTPS support isn't available
    BassErrorSsl,
    /// device needs to be reinitialized
    BassErrorReInit,
    /// already initialized/paused/whatever
    BassErrorAlready,
    /// file does not contain audio
    BassErrorNotAudio,
    /// can't get a free channel
    BassErrorNoChan,
    /// an illegal type was specified
    BassErrorIllType,
    /// an illegal parameter was specified
    BassErrorIllParam,
    /// no 3D support
    BassErrorNo3D,
    /// no EAX support
    BassErrorNoEax,
    /// illegal device number
    BassErrorDevice,
    /// not playing
    BassErrorNoPlay,
    /// illegal sample rate
    BassErrorFreq,
    /// the stream is not a file stream
    BassErrorNotFile,
    /// no hardware voices available
    BassErrorNoHw,
    /// the MOD music has no sequence data
    BassErrorEmpty,
    /// no internet connection could be opened
    BassErrorNoNet,
    /// couldn't create the file
    BassErrorCreate,
    /// effects are not available
    BassErrorNoFx,
    /// requested data/action is not available
    BassErrorNotAvailable,
    /// the channel is/isn't a "decoding channel"
    BassErrorDecode,
    /// a sufficient DirectX version is not installed
    BassErrorDx,
    /// connection timedout
    BassErrorTimeout,
    /// unsupported file format
    BassErrorFileForm,
    /// unavailable speaker
    BassErrorSpeaker,
    /// invalid BASS version (used by add-ons)
    BassErrorVersion,
    /// codec is not available/supported
    BassErrorCodec,
    /// the channel/file has ended
    BassErrorEnded,
    /// the device is busy
    BassErrorBusy,
    /// unstreamable file
    BassErrorUnstreamable,
    /// unsupported protocol
    BassErrorProtocol,
    /// some other mystery problem
    BassErrorUnknown,
}

/// Whether `code` is one of the codes that BASS documents.
pub open spec fn is_known_code(code: i32) -> bool {
    code == consts::BASS_OK
    || code == consts::BASS_ERROR_MEM
    || code == consts::BASS_ERROR_FILEOPEN
    || code == consts::BASS_ERROR_DRIVER
    || code == consts::BASS_ERROR_BUFLOST
    || code == consts::BASS_ERROR_HANDLE
    || code == consts::BASS_ERROR_FORMAT
    || code == consts::BASS_ERROR_POSITION
    || code == consts::BASS_ERROR_INIT
    || code == consts::BASS_ERROR_START
    || code == consts::BASS_ERROR_SSL
    || code == consts::BASS_ERROR_REINIT
    || code == consts::BASS_ERROR_ALREADY
    || code == consts::BASS_ERROR_NOTAUDIO
    || code == consts::BASS_ERROR_NOCHAN
    || code == consts::BASS_ERROR_ILLTYPE
    || code == consts::BASS_ERROR_ILLPARAM
    || code == consts::BASS_ERROR_NO3D
    || code == consts::BASS_ERROR_NOEAX
    || code == consts::BASS_ERROR_DEVICE
    || code == consts::BASS_ERROR_NOPLAY
    || code == consts::BASS_ERROR_FREQ
    || code == consts::BASS_ERROR_NOTFILE
    || code == consts::BASS_ERROR_NOHW
    || code == consts::BASS_ERROR_EMPTY
    || code == consts::BASS_ERROR_NONET
    || code == consts::BASS_ERROR_CREATE
    || code == consts::BASS_ERROR_NOFX
    || code == consts::BASS_ERROR_NOTAVAIL
    || code == consts::BASS_ERROR_DECODE
    || code == consts::BASS_ERROR_DX
    || code == consts::BASS_ERROR_TIMEOUT
    || code == consts::BASS_ERROR_FILEFORM
    || code == consts::BASS_ERROR_SPEAKER
    || code == consts::BASS_ERROR_VERSION
    || code == consts::BASS_ERROR_CODEC
    || code == consts::BASS_ERROR_ENDED
    || code == consts::BASS_ERROR_BUSY
    || code == consts::BASS_ERROR_UNSTREAMABLE
    || code == consts::BASS_ERROR_PROTOCOL
    || code == consts::BASS_ERROR_UNKNOWN
}

/// The variant that stands for `code`; `BassErrorUnknown` for any code BASS does not document.
pub open spec fn spec_from_code(code: i32) -> BassErrorCode {
    if code == consts::BASS_OK {
        BassErrorCode::BassOk
    } else if code == consts::BASS_ERROR_MEM {
        BassErrorCode::BassErrorMem
    } else if code == consts::BASS_ERROR_FILEOPEN {
        BassErrorCode::BassErrorFileOpen
    } else if code == consts::BASS_ERROR_DRIVER {
        BassErrorCode::BassErrorDriver
    } else if code == consts::BASS_ERROR_BUFLOST {
        BassErrorCode::BassErrorBufferLost
    } else if code == consts::BASS_ERROR_HANDLE {
        BassErrorCode::BassErrorHandle
    } else if code == consts::BASS_ERROR_FORMAT {
        BassErrorCode::BassErrorFormat
    } else if code == consts::BASS_ERROR_POSITION {
        BassErrorCode::BassErrorPosition
    } else if code == consts::BASS_ERROR_INIT {
        BassErrorCode::BassErrorInit
    } else if code == consts::BASS_ERROR_START {
        BassErrorCode::BassErrorStart
    } else if code == consts::BASS_ERROR_SSL {
        BassErrorCode::BassErrorSsl
    } else if code == consts::BASS_ERROR_REINIT {
        BassErrorCode::BassErrorReInit
    } else if code == consts::BASS_ERROR_ALREADY {
        BassErrorCode::BassErrorAlready
    } else if code == consts::BASS_ERROR_NOTAUDIO {
        BassErrorCode::BassErrorNotAudio
    } else if code == consts::BASS_ERROR_NOCHAN {
        BassErrorCode::BassErrorNoChan
    } else if code == consts::BASS_ERROR_ILLTYPE {
        BassErrorCode::BassErrorIllType
    } else if code == consts::BASS_ERROR_ILLPARAM {
        BassErrorCode::BassErrorIllParam
    } else if code == consts::BASS_ERROR_NO3D {
        BassErrorCode::BassErrorNo3D
    } else if code == consts::BASS_ERROR_NOEAX {
        BassErrorCode::BassErrorNoEax
    } else if code == consts::BASS_ERROR_DEVICE {
        BassErrorCode::BassErrorDevice
    } else if code == consts::BASS_ERROR_NOPLAY {
        BassErrorCode::BassErrorNoPlay
    } else if code == consts::BASS_ERROR_FREQ {
        BassErrorCode::BassErrorFreq
    } else if code == consts::BASS_ERROR_NOTFILE {
        BassErrorCode::BassErrorNotFile
    } else if code == consts::BASS_ERROR_NOHW {
        BassErrorCode::BassErrorNoHw
    } else if code == consts::BASS_ERROR_EMPTY {
        BassErrorCode::BassErrorEmpty
    } else if code == consts::BASS_ERROR_NONET {
        BassErrorCode::BassErrorNoNet
    } else if code == consts::BASS_ERROR_CREATE {
        BassErrorCode::BassErrorCreate
    } else if code == consts::BASS_ERROR_NOFX {
        BassErrorCode::BassErrorNoFx
    } else if code == consts::BASS_ERROR_NOTAVAIL {
        BassErrorCode::BassErrorNotAvailable
    } else if code == consts::BASS_ERROR_DECODE {
        BassErrorCode::BassErrorDecode
    } else if code == consts::BASS_ERROR_DX {
        BassErrorCode::BassErrorDx
    } else if code == consts::BASS_ERROR_TIMEOUT {
        BassErrorCode::BassErrorTimeout
    } else if code == consts::BASS_ERROR_FILEFORM {
        BassErrorCode::BassErrorFileForm
    } else if code == consts::BASS_ERROR_SPEAKER {
        BassErrorCode::BassErrorSpeaker
    } else if code == consts::BASS_ERROR_VERSION {
        BassErrorCode::BassErrorVersion
    } else if code == consts::BASS_ERROR_CODEC {
        BassErrorCode::BassErrorCodec
    } else if code == consts::BASS_ERROR_ENDED {
        BassErrorCode::BassErrorEnded
    } else if code == consts::BASS_ERROR_BUSY {
        BassErrorCode::BassErrorBusy
    } else if code == consts::BASS_ERROR_UNSTREAMABLE {
        BassErrorCode::BassErrorUnstreamable
    } else if code == consts::BASS_ERROR_PROTOCOL {
        BassErrorCode::BassErrorProtocol
    } else {
        BassErrorCode::BassErrorUnknown
    }
}

impl BassErrorCode {
    /// The code that BASS reports for this error.
    pub open spec fn spec_code(self) -> i32 {
        match self {
            BassErrorCode::BassOk => consts::BASS_OK,
            BassErrorCode::BassErrorMem => consts::BASS_ERROR_MEM,
            BassErrorCode::BassErrorFileOpen => consts::BASS_ERROR_FILEOPEN,
            BassErrorCode::BassErrorDriver => consts::BASS_ERROR_DRIVER,
            BassErrorCode::BassErrorBufferLost => consts::BASS_ERROR_BUFLOST,
            BassErrorCode::BassErrorHandle => consts::BASS_ERROR_HANDLE,
            BassErrorCode::BassErrorFormat => consts::BASS_ERROR_FORMAT,
            BassErrorCode::BassErrorPosition => consts::BASS_ERROR_POSITION,
            BassErrorCode::BassErrorInit => consts::BASS_ERROR_INIT,
            BassErrorCode::BassErrorStart => consts::BASS_ERROR_START,
            BassErrorCode::BassErrorSsl => consts::BASS_ERROR_SSL,
            BassErrorCode::BassErrorReInit => consts::BASS_ERROR_REINIT,
            BassErrorCode::BassErrorAlready => consts::BASS_ERROR_ALREADY,
            BassErrorCode::BassErrorNotAudio => consts::BASS_ERROR_NOTAUDIO,
            BassErrorCode::BassErrorNoChan => consts::BASS_ERROR_NOCHAN,
            BassErrorCode::BassErrorIllType => consts::BASS_ERROR_ILLTYPE,
            BassErrorCode::BassErrorIllParam => consts::BASS_ERROR_ILLPARAM,
            BassErrorCode::BassErrorNo3D => consts::BASS_ERROR_NO3D,
            BassErrorCode::BassErrorNoEax => consts::BASS_ERROR_NOEAX,
            BassErrorCode::BassErrorDevice => consts::BASS_ERROR_DEVICE,
            BassErrorCode::BassErrorNoPlay => consts::BASS_ERROR_NOPLAY,
            BassErrorCode::BassErrorFreq => consts::BASS_ERROR_FREQ,
            BassErrorCode::BassErrorNotFile => consts::BASS_ERROR_NOTFILE,
            BassErrorCode::BassErrorNoHw => consts::BASS_ERROR_NOHW,
            BassErrorCode::BassErrorEmpty => consts::BASS_ERROR_EMPTY,
            BassErrorCode::BassErrorNoNet => consts::BASS_ERROR_NONET,
            BassErrorCode::BassErrorCreate => consts::BASS_ERROR_CREATE,
            BassErrorCode::BassErrorNoFx => consts::BASS_ERROR_NOFX,
            BassErrorCode::BassErrorNotAvailable => consts::BASS_ERROR_NOTAVAIL,
            BassErrorCode::BassErrorDecode => consts::BASS_ERROR_DECODE,
            BassErrorCode::BassErrorDx => consts::BASS_ERROR_DX,
            BassErrorCode::BassErrorTimeout => consts::BASS_ERROR_TIMEOUT,
            BassErrorCode::BassErrorFileForm => consts::BASS_ERROR_FILEFORM,
            BassErrorCode::BassErrorSpeaker => consts::BASS_ERROR_SPEAKER,
            BassErrorCode::BassErrorVersion => consts::BASS_ERROR_VERSION,
            BassErrorCode::BassErrorCodec => consts::BASS_ERROR_CODEC,
            BassErrorCode::BassErrorEnded => consts::BASS_ERROR_ENDED,
            BassErrorCode::BassErrorBusy => consts::BASS_ERROR_BUSY,
            BassErrorCode::BassErrorUnstreamable => consts::BASS_ERROR_UNSTREAMABLE,
            BassErrorCode::BassErrorProtocol => consts::BASS_ERROR_PROTOCOL,
            BassErrorCode::BassErrorUnknown => consts::BASS_ERROR_UNKNOWN,
        }
    }

    /// The code that BASS reports for this error (`-1` for `BassErrorUnknown`).
    pub fn code(&self) -> (r: i32)
        ensures
            r == self.spec_code(),
    {
        match self {
            BassErrorCode::BassOk => consts::BASS_OK,
            BassErrorCode::BassErrorMem => consts::BASS_ERROR_MEM,
            BassErrorCode::BassErrorFileOpen => consts::BASS_ERROR_FILEOPEN,
            BassErrorCode::BassErrorDriver => consts::BASS_ERROR_DRIVER,
            BassErrorCode::BassErrorBufferLost => consts::BASS_ERROR_BUFLOST,
            BassErrorCode::BassErrorHandle => consts::BASS_ERROR_HANDLE,
            BassErrorCode::BassErrorFormat => consts::BASS_ERROR_FORMAT,
            BassErrorCode::BassErrorPosition => consts::BASS_ERROR_POSITION,
            BassErrorCode::BassErrorInit => consts::BASS_ERROR_INIT,
            BassErrorCode::BassErrorStart => consts::BASS_ERROR_START,
            BassErrorCode::BassErrorSsl => consts::BASS_ERROR_SSL,
            BassErrorCode::BassErrorReInit => consts::BASS_ERROR_REINIT,
            BassErrorCode::BassErrorAlready => consts::BASS_ERROR_ALREADY,
            BassErrorCode::BassErrorNotAudio => consts::BASS_ERROR_NOTAUDIO,
            BassErrorCode::BassErrorNoChan => consts::BASS_ERROR_NOCHAN,
            BassErrorCode::BassErrorIllType => consts::BASS_ERROR_ILLTYPE,
            BassErrorCode::BassErrorIllParam => consts::BASS_ERROR_ILLPARAM,
            BassErrorCode::BassErrorNo3D => consts::BASS_ERROR_NO3D,
            BassErrorCode::BassErrorNoEax => consts::BASS_ERROR_NOEAX,
            BassErrorCode::BassErrorDevice => consts::BASS_ERROR_DEVICE,
            BassErrorCode::BassErrorNoPlay => consts::BASS_ERROR_NOPLAY,
            BassErrorCode::BassErrorFreq => consts::BASS_ERROR_FREQ,
            BassErrorCode::BassErrorNotFile => consts::BASS_ERROR_NOTFILE,
            BassErrorCode::BassErrorNoHw => consts::BASS_ERROR_NOHW,
            BassErrorCode::BassErrorEmpty => consts::BASS_ERROR_EMPTY,
            BassErrorCode::BassErrorNoNet => consts::BASS_ERROR_NONET,
            BassErrorCode::BassErrorCreate => consts::BASS_ERROR_CREATE,
            BassErrorCode::BassErrorNoFx => consts::BASS_ERROR_NOFX,
            BassErrorCode::BassErrorNotAvailable => consts::BASS_ERROR_NOTAVAIL,
            BassErrorCode::BassErrorDecode => consts::BASS_ERROR_DECODE,
            BassErrorCode::BassErrorDx => consts::BASS_ERROR_DX,
            BassErrorCode::BassErrorTimeout => consts::BASS_ERROR_TIMEOUT,
            BassErrorCode::BassErrorFileForm => consts::BASS_ERROR_FILEFORM,
            BassErrorCode::BassErrorSpeaker => consts::BASS_ERROR_SPEAKER,
            BassErrorCode::BassErrorVersion => consts::BASS_ERROR_VERSION,
            BassErrorCode::BassErrorCodec => consts::BASS_ERROR_CODEC,
            BassErrorCode::BassErrorEnded => consts::BASS_ERROR_ENDED,
            BassErrorCode::BassErrorBusy => consts::BASS_ERROR_BUSY,
            BassErrorCode::BassErrorUnstreamable => consts::BASS_ERROR_UNSTREAMABLE,
            BassErrorCode::BassErrorProtocol => consts::BASS_ERROR_PROTOCOL,
            BassErrorCode::BassErrorUnknown => consts::BASS_ERROR_UNKNOWN,
        }
    }

    /// The variant for a code that `BASS_ErrorGetCode` reported.
    pub fn from_code(value: i32) -> (r: BassErrorCode)
        ensures
            r == spec_from_code(value),
    {
        if value == consts::BASS_OK {
            BassErrorCode::BassOk
        } else if value == consts::BASS_ERROR_MEM {
            BassErrorCode::BassErrorMem
        } else if value == consts::BASS_ERROR_FILEOPEN {
            BassErrorCode::BassErrorFileOpen
        } else if value == consts::BASS_ERROR_DRIVER {
            BassErrorCode::BassErrorDriver
        } else if value == consts::BASS_ERROR_BUFLOST {
            BassErrorCode::BassErrorBufferLost
        } else if value == consts::BASS_ERROR_HANDLE {
            BassErrorCode::BassErrorHandle
        } else if value == consts::BASS_ERROR_FORMAT {
            BassErrorCode::BassErrorFormat
        } else if value == consts::BASS_ERROR_POSITION {
            BassErrorCode::BassErrorPosition
        } else if value == consts::BASS_ERROR_INIT {
            BassErrorCode::BassErrorInit
        } else if value == consts::BASS_ERROR_START {
            BassErrorCode::BassErrorStart
        } else if value == consts::BASS_ERROR_SSL {
            BassErrorCode::BassErrorSsl
        } else if value == consts::BASS_ERROR_REINIT {
            BassErrorCode::BassErrorReInit
        } else if value == consts::BASS_ERROR_ALREADY {
            BassErrorCode::BassErrorAlready
        } else if value == consts::BASS_ERROR_NOTAUDIO {
            BassErrorCode::BassErrorNotAudio
        } else if value == consts::BASS_ERROR_NOCHAN {
            BassErrorCode::BassErrorNoChan
        } else if value == consts::BASS_ERROR_ILLTYPE {
            BassErrorCode::BassErrorIllType
        } else if value == consts::BASS_ERROR_ILLPARAM {
            BassErrorCode::BassErrorIllParam
        } else if value == consts::BASS_ERROR_NO3D {
            BassErrorCode::BassErrorNo3D
        } else if value == consts::BASS_ERROR_NOEAX {
            BassErrorCode::BassErrorNoEax
        } else if value == consts::BASS_ERROR_DEVICE {
            BassErrorCode::BassErrorDevice
        } else if value == consts::BASS_ERROR_NOPLAY {
            BassErrorCode::BassErrorNoPlay
        } else if value == consts::BASS_ERROR_FREQ {
            BassErrorCode::BassErrorFreq
        } else if value == consts::BASS_ERROR_NOTFILE {
            BassErrorCode::BassErrorNotFile
        } else if value == consts::BASS_ERROR_NOHW {
            BassErrorCode::BassErrorNoHw
        } else if value == consts::BASS_ERROR_EMPTY {
            BassErrorCode::BassErrorEmpty
        } else if value == consts::BASS_ERROR_NONET {
            BassErrorCode::BassErrorNoNet
        } else if value == consts::BASS_ERROR_CREATE {
            BassErrorCode::BassErrorCreate
        } else if value == consts::BASS_ERROR_NOFX {
            BassErrorCode::BassErrorNoFx
        } else if value == consts::BASS_ERROR_NOTAVAIL {
            BassErrorCode::BassErrorNotAvailable
        } else if value == consts::BASS_ERROR_DECODE {
            BassErrorCode::BassErrorDecode
        } else if value == consts::BASS_ERROR_DX {
            BassErrorCode::BassErrorDx
        } else if value == consts::BASS_ERROR_TIMEOUT {
            BassErrorCode::BassErrorTimeout
        } else if value == consts::BASS_ERROR_FILEFORM {
            BassErrorCode::BassErrorFileForm
        } else if value == consts::BASS_ERROR_SPEAKER {
            BassErrorCode::BassErrorSpeaker
        } else if value == consts::BASS_ERROR_VERSION {
            BassErrorCode::BassErrorVersion
        } else if value == consts::BASS_ERROR_CODEC {
            BassErrorCode::BassErrorCodec
        } else if value == consts::BASS_ERROR_ENDED {
            BassErrorCode::BassErrorEnded
        } else if value == consts::BASS_ERROR_BUSY {
            BassErrorCode::BassErrorBusy
        } else if value == consts::BASS_ERROR_UNSTREAMABLE {
            BassErrorCode::BassErrorUnstreamable
        } else if value == consts::BASS_ERROR_PROTOCOL {
            BassErrorCode::BassErrorProtocol
        } else {
            BassErrorCode::BassErrorUnknown
        }
    }
}

impl BassErrorCode {
    /// The message that describes this error.
    pub open spec fn spec_message(self) -> &'static str {
        match self {
            BassErrorCode::BassOk => "All is OK",
            BassErrorCode::BassErrorMem => "Memory Error",
            BassErrorCode::BassErrorFileOpen => "Can't open the file",
            BassErrorCode::BassErrorDriver => "Can't find a free/valid driver",
            BassErrorCode::BassErrorBufferLost => "The sample buffer was lost",
            BassErrorCode::BassErrorHandle => "Invalid handle",
            BassErrorCode::BassErrorFormat => "Unsupported sample format",
            BassErrorCode::BassErrorPosition => "Invalid position",
            BassErrorCode::BassErrorInit => "BASS_Init has not been successfully called",
            BassErrorCode::BassErrorStart => "BASS_Start has not been successfully called",
            BassErrorCode::BassErrorSsl => "SSL/HTTPS support isn't available",
            BassErrorCode::BassErrorReInit => "Device needs to be reinitialized",
            BassErrorCode::BassErrorAlready => "Alread initialized/paused/whatever",
            BassErrorCode::BassErrorNotAudio => "File does not contain audio",
            BassErrorCode::BassErrorNoChan => "Can't get a free channel",
            BassErrorCode::BassErrorIllType => "An illegal/invalid type was specified",
            BassErrorCode::BassErrorIllParam => "An illegal/invalid parameter was specified",
            BassErrorCode::BassErrorNo3D => "No 3D support",
            BassErrorCode::BassErrorNoEax => "No EAX support",
            BassErrorCode::BassErrorDevice => "Illegal/Incorrect device number",
            BassErrorCode::BassErrorNoPlay => "Not playing",
            BassErrorCode::BassErrorFreq => "Illegal sample rate",
            BassErrorCode::BassErrorNotFile => "The stream is not a file stream",
            BassErrorCode::BassErrorNoHw => "No hardware voices available",
            BassErrorCode::BassErrorEmpty => "The MOD music has no sequence data",
            BassErrorCode::BassErrorNoNet => "No internet connection could be opened",
            BassErrorCode::BassErrorCreate => "Couldn't create the file",
            BassErrorCode::BassErrorNoFx => "Effects are not available",
            BassErrorCode::BassErrorNotAvailable => "Requested data/action is not available",
            BassErrorCode::BassErrorDecode => "The channel is/isn't a “decoding channel”",
            BassErrorCode::BassErrorDx => "A sufficient DirectX version is not installed",
            BassErrorCode::BassErrorTimeout => "Connection timeout",
            BassErrorCode::BassErrorFileForm => "Unsupported file format",
            BassErrorCode::BassErrorSpeaker => "Unavailable speaker",
            BassErrorCode::BassErrorVersion => "Invalid BASS version (used by add-ons)",
            BassErrorCode::BassErrorCodec => "Codec is not available/supported",
            BassErrorCode::BassErrorEnded => "The channel/file has ended",
            BassErrorCode::BassErrorBusy => "The device is busy",
            BassErrorCode::BassErrorUnstreamable => "Unstreamable file",
            BassErrorCode::BassErrorProtocol => "Unsupported protocol",
            BassErrorCode::BassErrorUnknown => "Some other mystery problem!",
        }
    }

    /// The message that describes this error.
    pub fn message(&self) -> (r: &'static str)
        ensures
            r == self.spec_message(),
    {
        match self {
            BassErrorCode::BassOk => "All is OK",
            BassErrorCode::BassErrorMem => "Memory Error",
            BassErrorCode::BassErrorFileOpen => "Can't open the file",
            BassErrorCode::BassErrorDriver => "Can't find a free/valid driver",
            BassErrorCode::BassErrorBufferLost => "The sample buffer was lost",
            BassErrorCode::BassErrorHandle => "Invalid handle",
            BassErrorCode::BassErrorFormat => "Unsupported sample format",
            BassErrorCode::BassErrorPosition => "Invalid position",
            BassErrorCode::BassErrorInit => "BASS_Init has not been successfully called",
            BassErrorCode::BassErrorStart => "BASS_Start has not been successfully called",
            BassErrorCode::BassErrorSsl => "SSL/HTTPS support isn't available",
            BassErrorCode::BassErrorReInit => "Device needs to be reinitialized",
            BassErrorCode::BassErrorAlready => "Alread initialized/paused/whatever",
            BassErrorCode::BassErrorNotAudio => "File does not contain audio",
            BassErrorCode::BassErrorNoChan => "Can't get a free channel",
            BassErrorCode::BassErrorIllType => "An illegal/invalid type was specified",
            BassErrorCode::BassErrorIllParam => "An illegal/invalid parameter was specified",
            BassErrorCode::BassErrorNo3D => "No 3D support",
            BassErrorCode::BassErrorNoEax => "No EAX support",
            BassErrorCode::BassErrorDevice => "Illegal/Incorrect device number",
            BassErrorCode::BassErrorNoPlay => "Not playing",
            BassErrorCode::BassErrorFreq => "Illegal sample rate",
            BassErrorCode::BassErrorNotFile => "The stream is not a file stream",
            BassErrorCode::BassErrorNoHw => "No hardware voices available",
            BassErrorCode::BassErrorEmpty => "The MOD music has no sequence data",
            BassErrorCode::BassErrorNoNet => "No internet connection could be opened",
            BassErrorCode::BassErrorCreate => "Couldn't create the file",
            BassErrorCode::BassErrorNoFx => "Effects are not available",
            BassErrorCode::BassErrorNotAvailable => "Requested data/action is not available",
            BassErrorCode::BassErrorDecode => "The channel is/isn't a “decoding channel”",
            BassErrorCode::BassErrorDx => "A sufficient DirectX version is not installed",
            BassErrorCode::BassErrorTimeout => "Connection timeout",
            BassErrorCode::BassErrorFileForm => "Unsupported file format",
            BassErrorCode::BassErrorSpeaker => "Unavailable speaker",
            BassErrorCode::BassErrorVersion => "Invalid BASS version (used by add-ons)",
            BassErrorCode::BassErrorCodec => "Codec is not available/supported",
            BassErrorCode::BassErrorEnded => "The channel/file has ended",
            BassErrorCode::BassErrorBusy => "The device is busy",
            BassErrorCode::BassErrorUnstreamable => "Unstreamable file",
            BassErrorCode::BassErrorProtocol => "Unsupported protocol",
            BassErrorCode::BassErrorUnknown => "Some other mystery problem!",
        }
    }
}

impl From<i32> for BassErrorCode {
    fn from(value: i32) -> (r: Self) {
        BassErrorCode::from_code(value)
    }
}

impl vstd::std_specs::convert::FromSpecImpl<i32> for BassErrorCode {
    open spec fn obeys_from_spec() -> bool {
        true
    }

    open spec fn from_spec(v: i32) -> Self {
        spec_from_code(v)
    }
}

/// The signed code whose bits are those of `value`.
pub open spec fn spec_signed(value: u32) -> i32 {
    if value < 0x8000_0000 {
        value as i32
    } else {
        (value as int - 0x1_0000_0000) as i32
    }
}

impl From<u32> for BassErrorCode {
    /// A code read as an unsigned 32-bit value is reinterpreted as the signed code.
    fn from(value: u32) -> (r: Self) {
        let code = value as i32;
        assert(code == spec_signed(value)) by (bit_vector)
            requires
                code == value as i32,
        ;
        BassErrorCode::from_code(code)
    }
}

impl vstd::std_specs::convert::FromSpecImpl<u32> for BassErrorCode {
    open spec fn obeys_from_spec() -> bool {
        true
    }

    open spec fn from_spec(v: u32) -> Self {
        spec_from_code(spec_signed(v))
    }
}

/// Each error is reported under its own number of `bass.h`: `BASS_OK` 0,
/// `BASS_ERROR_MEM` 1, ..., `BASS_ERROR_BUSY` 46, ..., and -1 for an unknown
/// problem; reading a code back gives the error that has that number.
pub proof fn lemma_error_code_numbers()
    ensures
        BassErrorCode::BassOk.spec_code() == 0i32,
        BassErrorCode::BassErrorMem.spec_code() == 1i32,
        BassErrorCode::BassErrorFileOpen.spec_code() == 2i32,
        BassErrorCode::BassErrorDriver.spec_code() == 3i32,
        BassErrorCode::BassErrorBufferLost.spec_code() == 4i32,
        BassErrorCode::BassErrorHandle.spec_code() == 5i32,
        BassErrorCode::BassErrorFormat.spec_code() == 6i32,
        BassErrorCode::BassErrorPosition.spec_code() == 7i32,
        BassErrorCode::BassErrorInit.spec_code() == 8i32,
        BassErrorCode::BassErrorStart.spec_code() == 9i32,
        BassErrorCode::BassErrorSsl.spec_code() == 10i32,
        BassErrorCode::BassErrorReInit.spec_code() == 11i32,
        BassErrorCode::BassErrorAlready.spec_code() == 14i32,
        BassErrorCode::BassErrorNotAudio.spec_code() == 17i32,
        BassErrorCode::BassErrorNoChan.spec_code() == 18i32,
        BassErrorCode::BassErrorIllType.spec_code() == 19i32,
        BassErrorCode::BassErrorIllParam.spec_code() == 20i32,
        BassErrorCode::BassErrorNo3D.spec_code() == 21i32,
        BassErrorCode::BassErrorNoEax.spec_code() == 22i32,
        BassErrorCode::BassErrorDevice.spec_code() == 23i32,
        BassErrorCode::BassErrorNoPlay.spec_code() == 24i32,
        BassErrorCode::BassErrorFreq.spec_code() == 25i32,
        BassErrorCode::BassErrorNotFile.spec_code() == 27i32,
        BassErrorCode::BassErrorNoHw.spec_code() == 29i32,
        BassErrorCode::BassErrorEmpty.spec_code() == 31i32,
        BassErrorCode::BassErrorNoNet.spec_code() == 32i32,
        BassErrorCode::BassErrorCreate.spec_code() == 33i32,
        BassErrorCode::BassErrorNoFx.spec_code() == 34i32,
        BassErrorCode::BassErrorNotAvailable.spec_code() == 37i32,
        BassErrorCode::BassErrorDecode.spec_code() == 38i32,
        BassErrorCode::BassErrorDx.spec_code() == 39i32,
        BassErrorCode::BassErrorTimeout.spec_code() == 40i32,
        BassErrorCode::BassErrorFileForm.spec_code() == 41i32,
        BassErrorCode::BassErrorSpeaker.spec_code() == 42i32,
        BassErrorCode::BassErrorVersion.spec_code() == 43i32,
        BassErrorCode::BassErrorCodec.spec_code() == 44i32,
        BassErrorCode::BassErrorEnded.spec_code() == 45i32,
        BassErrorCode::BassErrorBusy.spec_code() == 46i32,
        BassErrorCode::BassErrorUnstreamable.spec_code() == 47i32,
        BassErrorCode::BassErrorProtocol.spec_code() == 48i32,
        BassErrorCode::BassErrorUnknown.spec_code() == -1i32,
{
}

/// Every error has a code from which it is read back unchanged.
pub proof fn lemma_from_code_of_code(e: BassErrorCode)
    ensures
        spec_from_code(e.spec_code()) == e,
        is_known_code(e.spec_code()),
{
}

/// A documented code is kept by the round trip through its variant;
/// any other code becomes `-1`, the code of `BassErrorUnknown`.
pub proof fn lemma_code_of_from_code(code: i32)
    ensures
        is_known_code(code) ==> spec_from_code(code).spec_code() == code,
        !is_known_code(code) ==> spec_from_code(code) == BassErrorCode::BassErrorUnknown,
        !is_known_code(code) ==> spec_from_code(code).spec_code() == consts::BASS_ERROR_UNKNOWN,
{
}

/// Two variants with the same code are the same variant.
pub proof fn lemma_code_injective(a: BassErrorCode, b: BassErrorCode)
    ensures
        a.spec_code() == b.spec_code() ==> a == b,
{
    lemma_from_code_of_code(a);
    lemma_from_code_of_code(b);
}

/// An error of BASS, holding the code that BASS reported.
#[derive(Clone, Copy, Debug, Eq, PartialEq, Structural)]
pub struct BassError {
    pub code: i32,
}

impl BassError {
    /// The error code of the most recent BASS call of this thread.
    pub fn get() -> (r: BassErrorCode)
        ensures
            exists|code: i32| #[trigger] calls::returned_error_get_code(code) && r == spec_from_code(code),
    {
        BassErrorCode::from_code(calls::error_get_code())
    }

    /// Reads, and throws away, the error code of the most recent BASS call.
    pub fn consume()
        ensures
            exists|code: i32| #[trigger] calls::returned_error_get_code(code),
    {
        let _ = calls::error_get_code();
    }

    /// Fails with the error that BASS reported last.
    pub fn result<T>() -> (r: Result<T, BassError>)
        ensures
            r is Err,
            r matches Err(e) ==> calls::returned_error_get_code(e.code),
    {
        Err(BassError::default())
    }

    /// The error that stands for an unknown problem, with code `-1`.
    pub fn unknown() -> (r: BassError)
        ensures
            r.code == consts::BASS_ERROR_UNKNOWN,
    {
        BassError { code: consts::BASS_ERROR_UNKNOWN }
    }
}

/// The decimal digit `d` (`d` below 10).
pub open spec fn spec_digit(d: int) -> char {
    if d == 0 {
        '0'
    } else if d == 1 {
        '1'
    } else if d == 2 {
        '2'
    } else if d == 3 {
        '3'
    } else if d == 4 {
        '4'
    } else if d == 5 {
        '5'
    } else if d == 6 {
        '6'
    } else if d == 7 {
        '7'
    } else if d == 8 {
        '8'
    } else {
        '9'
    }
}

/// The decimal digits of `n`, most significant first, without leading zeros.
pub open spec fn spec_decimal_nat(n: nat) -> Seq<char>
    decreases n,
{
    if n < 10 {
        seq![spec_digit(n as int)]
    } else {
        spec_decimal_nat(n / 10).push(spec_digit((n % 10) as int))
    }
}

/// `n` written in decimal, with a leading `-` when it is negative.
pub open spec fn spec_decimal(n: int) -> Seq<char> {
    if n < 0 {
        seq!['-'] + spec_decimal_nat((-n) as nat)
    } else {
        spec_decimal_nat(n as nat)
    }
}

fn digit_str(d: u64) -> (r: &'static str)
    requires
        d < 10,
    ensures
        r@ == seq![spec_digit(d as int)],
{
    if d == 0 {
        proof {
            reveal_strlit("0");
        }
        "0"
    } else if d == 1 {
        proof {
            reveal_strlit("1");
        }
        "1"
    } else if d == 2 {
        proof {
            reveal_strlit("2");
        }
        "2"
    } else if d == 3 {
        proof {
            reveal_strlit("3");
        }
        "3"
    } else if d == 4 {
        proof {
            reveal_strlit("4");
        }
        "4"
    } else if d == 5 {
        proof {
            reveal_strlit("5");
        }
        "5"
    } else if d == 6 {
        proof {
            reveal_strlit("6");
        }
        "6"
    } else if d == 7 {
        proof {
            reveal_strlit("7");
        }
        "7"
    } else if d == 8 {
        proof {
            reveal_strlit("8");
        }
        "8"
    } else {
        proof {
            reveal_strlit("9");
        }
        "9"
    }
}

fn decimal_nat(n: u64) -> (r: String)
    ensures
        r@ == spec_decimal_nat(n as nat),
    decreases n,
{
    if n < 10 {
        String::from_str(digit_str(n))
    } else {
        let mut r = decimal_nat(n / 10);
        r.append(digit_str(n % 10));
        r
    }
}

/// `n` written in decimal.
fn decimal(n: i32) -> (r: String)
    ensures
        r@ == spec_decimal(n as int),
{
    if n < 0 {
        let magnitude = (-(n as i64)) as u64;
        let digits = decimal_nat(magnitude);
        proof {
            reveal_strlit("-");
        }
        String::from_str("-").concat(digits.as_str())
    } else {
        decimal_nat(n as u64)
    }
}

impl BassError {
    /// The message that describes this error: "BASS Failed with code: " and the
    /// code in decimal.
    pub fn message(&self) -> (r: String)
        ensures
            r@ == "BASS Failed with code: "@ + spec_decimal(self.code as int),
    {
        String::from_str("BASS Failed with code: ").concat(decimal(self.code).as_str())
    }
}

impl Default for BassError {
    /// The error that BASS reported last.
    fn default() -> (r: Self)
        ensures
            calls::returned_error_get_code(r.code),
    {
        let code = calls::error_get_code();
        BassError { code }
    }
}

impl From<BassErrorCode> for BassError {
    fn from(value: BassErrorCode) -> (r: Self) {
        BassError { code: value.code() }
    }
}

impl vstd::std_specs::convert::FromSpecImpl<BassErrorCode> for BassError {
    open spec fn obeys_from_spec() -> bool {
        true
    }

    open spec fn from_spec(v: BassErrorCode) -> Self {
        BassError { code: v.spec_code() }
    }
}

/// An error built from a reported code carries that code when BASS documents it,
/// and `-1` otherwise.
pub proof fn lemma_error_from_code(code: i32)
    ensures
        (BassError { code: spec_from_code(code).spec_code() }).code == (if is_known_code(code) {
            code
        } else {
            consts::BASS_ERROR_UNKNOWN
        }),
{
    lemma_code_of_from_code(code);
}

} // verus!
