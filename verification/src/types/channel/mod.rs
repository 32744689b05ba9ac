//! Descriptions of channels: attributes and channel information.
use vstd::prelude::*;
use crate::consts;

verus! {

/// An attribute of a channel that can be read.
#[derive(Debug, Clone, Copy, PartialEq, Eq, Structural)]
pub enum ChannelGetAttribute {
    Bitrate,
    Buffer,
    CPU,
    Frequency,
    Granule,
    MusicActive,
    MusicAmplify,
    MusicBPM,
    MusicPanSeparation,
    MusicPositionScaler,
    MusicSpeed,
    MusicChannelVolume,
    MusicGlobalVolume,
    MusicInstrumentVolume,
    NetworkResume,
    Ramp,
    Pan,
    BufferPushLimit,
    SRCQuality,
    Tail,
    Volume,
    VolumeDSP,
}

impl ChannelGetAttribute {
    /// The `BASS_ATTRIB_*` value that names this attribute.
    pub open spec fn spec_value(self) -> u32 {
        match self {
            ChannelGetAttribute::Bitrate => consts::BASS_ATTRIB_BITRATE,
            ChannelGetAttribute::Buffer => consts::BASS_ATTRIB_BUFFER,
            ChannelGetAttribute::CPU => consts::BASS_ATTRIB_CPU,
            ChannelGetAttribute::Frequency => consts::BASS_ATTRIB_FREQ,
            ChannelGetAttribute::Granule => consts::BASS_ATTRIB_GRANULE,
            ChannelGetAttribute::MusicActive => consts::BASS_ATTRIB_MUSIC_ACTIVE,
            ChannelGetAttribute::MusicAmplify => consts::BASS_ATTRIB_MUSIC_AMPLIFY,
            ChannelGetAttribute::MusicBPM => consts::BASS_ATTRIB_MUSIC_BPM,
            ChannelGetAttribute::MusicPanSeparation => consts::BASS_ATTRIB_MUSIC_PANSEP,
            ChannelGetAttribute::MusicPositionScaler => consts::BASS_ATTRIB_MUSIC_PSCALER,
            ChannelGetAttribute::MusicSpeed => consts::BASS_ATTRIB_MUSIC_SPEED,
            ChannelGetAttribute::MusicChannelVolume => consts::BASS_ATTRIB_MUSIC_VOL_CHAN,
            ChannelGetAttribute::MusicGlobalVolume => consts::BASS_ATTRIB_MUSIC_VOL_GLOBAL,
            ChannelGetAttribute::MusicInstrumentVolume => consts::BASS_ATTRIB_MUSIC_VOL_INST,
            ChannelGetAttribute::NetworkResume => consts::BASS_ATTRIB_NET_RESUME,
            ChannelGetAttribute::Ramp => consts::BASS_ATTRIB_NORAMP,
            ChannelGetAttribute::Pan => consts::BASS_ATTRIB_PAN,
            ChannelGetAttribute::BufferPushLimit => consts::BASS_ATTRIB_PUSH_LIMIT,
            ChannelGetAttribute::SRCQuality => consts::BASS_ATTRIB_SRC,
            ChannelGetAttribute::Tail => consts::BASS_ATTRIB_TAIL,
            ChannelGetAttribute::Volume => consts::BASS_ATTRIB_VOL,
            ChannelGetAttribute::VolumeDSP => consts::BASS_ATTRIB_VOLDSP,
        }
    }
}

impl From<ChannelGetAttribute> for u32 {
    fn from(value: ChannelGetAttribute) -> (r: u32) {
        match value {
            ChannelGetAttribute::Bitrate => consts::BASS_ATTRIB_BITRATE,
            ChannelGetAttribute::Buffer => consts::BASS_ATTRIB_BUFFER,
            ChannelGetAttribute::CPU => consts::BASS_ATTRIB_CPU,
            ChannelGetAttribute::Frequency => consts::BASS_ATTRIB_FREQ,
            ChannelGetAttribute::Granule => consts::BASS_ATTRIB_GRANULE,
            ChannelGetAttribute::MusicActive => consts::BASS_ATTRIB_MUSIC_ACTIVE,
            ChannelGetAttribute::MusicAmplify => consts::BASS_ATTRIB_MUSIC_AMPLIFY,
            ChannelGetAttribute::MusicBPM => consts::BASS_ATTRIB_MUSIC_BPM,
            ChannelGetAttribute::MusicPanSeparation => consts::BASS_ATTRIB_MUSIC_PANSEP,
            ChannelGetAttribute::MusicPositionScaler => consts::BASS_ATTRIB_MUSIC_PSCALER,
            ChannelGetAttribute::MusicSpeed => consts::BASS_ATTRIB_MUSIC_SPEED,
            ChannelGetAttribute::MusicChannelVolume => consts::BASS_ATTRIB_MUSIC_VOL_CHAN,
            ChannelGetAttribute::MusicGlobalVolume => consts::BASS_ATTRIB_MUSIC_VOL_GLOBAL,
            ChannelGetAttribute::MusicInstrumentVolume => consts::BASS_ATTRIB_MUSIC_VOL_INST,
            ChannelGetAttribute::NetworkResume => consts::BASS_ATTRIB_NET_RESUME,
            ChannelGetAttribute::Ramp => consts::BASS_ATTRIB_NORAMP,
            ChannelGetAttribute::Pan => consts::BASS_ATTRIB_PAN,
            ChannelGetAttribute::BufferPushLimit => consts::BASS_ATTRIB_PUSH_LIMIT,
            ChannelGetAttribute::SRCQuality => consts::BASS_ATTRIB_SRC,
            ChannelGetAttribute::Tail => consts::BASS_ATTRIB_TAIL,
            ChannelGetAttribute::Volume => consts::BASS_ATTRIB_VOL,
            ChannelGetAttribute::VolumeDSP => consts::BASS_ATTRIB_VOLDSP,
        }
    }
}

impl vstd::std_specs::convert::FromSpecImpl<ChannelGetAttribute> for u32 {
    open spec fn obeys_from_spec() -> bool {
        true
    }

    open spec fn from_spec(v: ChannelGetAttribute) -> u32 {
        v.spec_value()
    }
}

/// An attribute of a channel that can be set.
#[derive(Debug, Clone, Copy, PartialEq, Eq, Structural)]
pub enum ChannelSetAttribute {
    Buffer,
    Frequency,
    Granule,
    MusicActive,
    MusicAmplify,
    MusicBPM,
    MusicPanSeparation,
    MusicPositionScaler,
    MusicSpeed,
    MusicChannelVolume,
    MusicGlobalVolume,
    MusicInstrumentVolume,
    NetworkResume,
    Ramp,
    Pan,
    BufferPushLimit,
    SRCQuality,
    Tail,
    Volume,
    VolumeDSP,
    VolumeDSPPriority,
}

impl ChannelSetAttribute {
    /// The `BASS_ATTRIB_*` value that names this attribute.
    pub open spec fn spec_value(self) -> u32 {
        match self {
            ChannelSetAttribute::Buffer => consts::BASS_ATTRIB_BUFFER,
            ChannelSetAttribute::Frequency => consts::BASS_ATTRIB_FREQ,
            ChannelSetAttribute::Granule => consts::BASS_ATTRIB_GRANULE,
            ChannelSetAttribute::MusicActive => consts::BASS_ATTRIB_MUSIC_ACTIVE,
            ChannelSetAttribute::MusicAmplify => consts::BASS_ATTRIB_MUSIC_AMPLIFY,
            ChannelSetAttribute::MusicBPM => consts::BASS_ATTRIB_MUSIC_BPM,
            ChannelSetAttribute::MusicPanSeparation => consts::BASS_ATTRIB_MUSIC_PANSEP,
            ChannelSetAttribute::MusicPositionScaler => consts::BASS_ATTRIB_MUSIC_PSCALER,
            ChannelSetAttribute::MusicSpeed => consts::BASS_ATTRIB_MUSIC_SPEED,
            ChannelSetAttribute::MusicChannelVolume => consts::BASS_ATTRIB_MUSIC_VOL_CHAN,
            ChannelSetAttribute::MusicGlobalVolume => consts::BASS_ATTRIB_MUSIC_VOL_GLOBAL,
            ChannelSetAttribute::MusicInstrumentVolume => consts::BASS_ATTRIB_MUSIC_VOL_INST,
            ChannelSetAttribute::NetworkResume => consts::BASS_ATTRIB_NET_RESUME,
            ChannelSetAttribute::Ramp => consts::BASS_ATTRIB_NORAMP,
            ChannelSetAttribute::Pan => consts::BASS_ATTRIB_PAN,
            ChannelSetAttribute::BufferPushLimit => consts::BASS_ATTRIB_PUSH_LIMIT,
            ChannelSetAttribute::SRCQuality => consts::BASS_ATTRIB_SRC,
            ChannelSetAttribute::Tail => consts::BASS_ATTRIB_TAIL,
            ChannelSetAttribute::Volume => consts::BASS_ATTRIB_VOL,
            ChannelSetAttribute::VolumeDSP => consts::BASS_ATTRIB_VOLDSP,
            ChannelSetAttribute::VolumeDSPPriority => consts::BASS_ATTRIB_VOLDSP_PRIORITY,
        }
    }
}

impl From<ChannelSetAttribute> for u32 {
    fn from(value: ChannelSetAttribute) -> (r: u32) {
        match value {
            ChannelSetAttribute::Buffer => consts::BASS_ATTRIB_BUFFER,
            ChannelSetAttribute::Frequency => consts::BASS_ATTRIB_FREQ,
            ChannelSetAttribute::Granule => consts::BASS_ATTRIB_GRANULE,
            ChannelSetAttribute::MusicActive => consts::BASS_ATTRIB_MUSIC_ACTIVE,
            ChannelSetAttribute::MusicAmplify => consts::BASS_ATTRIB_MUSIC_AMPLIFY,
            ChannelSetAttribute::MusicBPM => consts::BASS_ATTRIB_MUSIC_BPM,
            ChannelSetAttribute::MusicPanSeparation => consts::BASS_ATTRIB_MUSIC_PANSEP,
            ChannelSetAttribute::MusicPositionScaler => consts::BASS_ATTRIB_MUSIC_PSCALER,
            ChannelSetAttribute::MusicSpeed => consts::BASS_ATTRIB_MUSIC_SPEED,
            ChannelSetAttribute::MusicChannelVolume => consts::BASS_ATTRIB_MUSIC_VOL_CHAN,
            ChannelSetAttribute::MusicGlobalVolume => consts::BASS_ATTRIB_MUSIC_VOL_GLOBAL,
            ChannelSetAttribute::MusicInstrumentVolume => consts::BASS_ATTRIB_MUSIC_VOL_INST,
            ChannelSetAttribute::NetworkResume => consts::BASS_ATTRIB_NET_RESUME,
            ChannelSetAttribute::Ramp => consts::BASS_ATTRIB_NORAMP,
            ChannelSetAttribute::Pan => consts::BASS_ATTRIB_PAN,
            ChannelSetAttribute::BufferPushLimit => consts::BASS_ATTRIB_PUSH_LIMIT,
            ChannelSetAttribute::SRCQuality => consts::BASS_ATTRIB_SRC,
            ChannelSetAttribute::Tail => consts::BASS_ATTRIB_TAIL,
            ChannelSetAttribute::Volume => consts::BASS_ATTRIB_VOL,
            ChannelSetAttribute::VolumeDSP => consts::BASS_ATTRIB_VOLDSP,
            ChannelSetAttribute::VolumeDSPPriority => consts::BASS_ATTRIB_VOLDSP_PRIORITY,
        }
    }
}

impl vstd::std_specs::convert::FromSpecImpl<ChannelSetAttribute> for u32 {
    open spec fn obeys_from_spec() -> bool {
        true
    }

    open spec fn from_spec(v: ChannelSetAttribute) -> u32 {
        v.spec_value()
    }
}

/// Each readable attribute is named by its own number of `bass.h`: bitrate 12
/// (`BASS_ATTRIB_BITRATE`), buffer 13 (`BASS_ATTRIB_BUFFER`), granule 14
/// (`BASS_ATTRIB_GRANULE`), and so on; `u32::from` gives that number.
pub proof fn lemma_get_attribute_numbers()
    ensures
        ChannelGetAttribute::Bitrate.spec_value() == 12u32,
        ChannelGetAttribute::Buffer.spec_value() == 13u32,
        ChannelGetAttribute::CPU.spec_value() == 7u32,
        ChannelGetAttribute::Frequency.spec_value() == 1u32,
        ChannelGetAttribute::Granule.spec_value() == 14u32,
        ChannelGetAttribute::MusicActive.spec_value() == 0x106u32,
        ChannelGetAttribute::MusicAmplify.spec_value() == 0x100u32,
        ChannelGetAttribute::MusicBPM.spec_value() == 0x103u32,
        ChannelGetAttribute::MusicPanSeparation.spec_value() == 0x101u32,
        ChannelGetAttribute::MusicPositionScaler.spec_value() == 0x102u32,
        ChannelGetAttribute::MusicSpeed.spec_value() == 0x104u32,
        ChannelGetAttribute::MusicChannelVolume.spec_value() == 0x200u32,
        ChannelGetAttribute::MusicGlobalVolume.spec_value() == 0x105u32,
        ChannelGetAttribute::MusicInstrumentVolume.spec_value() == 0x300u32,
        ChannelGetAttribute::NetworkResume.spec_value() == 9u32,
        ChannelGetAttribute::Ramp.spec_value() == 11u32,
        ChannelGetAttribute::Pan.spec_value() == 3u32,
        ChannelGetAttribute::BufferPushLimit.spec_value() == 17u32,
        ChannelGetAttribute::SRCQuality.spec_value() == 8u32,
        ChannelGetAttribute::Tail.spec_value() == 16u32,
        ChannelGetAttribute::Volume.spec_value() == 2u32,
        ChannelGetAttribute::VolumeDSP.spec_value() == 19u32,
{
}

/// Each settable attribute is named by its own number of `bass.h`: buffer 13
/// (`BASS_ATTRIB_BUFFER`), frequency 1 (`BASS_ATTRIB_FREQ`), granule 14
/// (`BASS_ATTRIB_GRANULE`), and so on; `u32::from` gives that number.
pub proof fn lemma_set_attribute_numbers()
    ensures
        ChannelSetAttribute::Buffer.spec_value() == 13u32,
        ChannelSetAttribute::Frequency.spec_value() == 1u32,
        ChannelSetAttribute::Granule.spec_value() == 14u32,
        ChannelSetAttribute::MusicActive.spec_value() == 0x106u32,
        ChannelSetAttribute::MusicAmplify.spec_value() == 0x100u32,
        ChannelSetAttribute::MusicBPM.spec_value() == 0x103u32,
        ChannelSetAttribute::MusicPanSeparation.spec_value() == 0x101u32,
        ChannelSetAttribute::MusicPositionScaler.spec_value() == 0x102u32,
        ChannelSetAttribute::MusicSpeed.spec_value() == 0x104u32,
        ChannelSetAttribute::MusicChannelVolume.spec_value() == 0x200u32,
        ChannelSetAttribute::MusicGlobalVolume.spec_value() == 0x105u32,
        ChannelSetAttribute::MusicInstrumentVolume.spec_value() == 0x300u32,
        ChannelSetAttribute::NetworkResume.spec_value() == 9u32,
        ChannelSetAttribute::Ramp.spec_value() == 11u32,
        ChannelSetAttribute::Pan.spec_value() == 3u32,
        ChannelSetAttribute::BufferPushLimit.spec_value() == 17u32,
        ChannelSetAttribute::SRCQuality.spec_value() == 8u32,
        ChannelSetAttribute::Tail.spec_value() == 16u32,
        ChannelSetAttribute::Volume.spec_value() == 2u32,
        ChannelSetAttribute::VolumeDSP.spec_value() == 19u32,
        ChannelSetAttribute::VolumeDSPPriority.spec_value() == 20u32,
{
}

/// Distinct readable attributes have distinct BASS values.
pub proof fn lemma_get_attribute_values_distinct(a: ChannelGetAttribute, b: ChannelGetAttribute)
    ensures
        a != b ==> a.spec_value() != b.spec_value(),
{
}

/// Distinct settable attributes have distinct BASS values.
pub proof fn lemma_set_attribute_values_distinct(a: ChannelSetAttribute, b: ChannelSetAttribute)
    ensures
        a != b ==> a.spec_value() != b.spec_value(),
{
}

/// Every settable attribute but the DSP volume priority can be read back under the same BASS value.
pub proof fn lemma_set_attribute_readable(s: ChannelSetAttribute)
    ensures
        s != ChannelSetAttribute::VolumeDSPPriority ==> exists|g: ChannelGetAttribute| g.spec_value() == s.spec_value(),
{
    match s {
        ChannelSetAttribute::Buffer => {
            assert(ChannelGetAttribute::Buffer.spec_value() == s.spec_value());
        },
        ChannelSetAttribute::Frequency => {
            assert(ChannelGetAttribute::Frequency.spec_value() == s.spec_value());
        },
        ChannelSetAttribute::Granule => {
            assert(ChannelGetAttribute::Granule.spec_value() == s.spec_value());
        },
        ChannelSetAttribute::MusicActive => {
            assert(ChannelGetAttribute::MusicActive.spec_value() == s.spec_value());
        },
        ChannelSetAttribute::MusicAmplify => {
            assert(ChannelGetAttribute::MusicAmplify.spec_value() == s.spec_value());
        },
        ChannelSetAttribute::MusicBPM => {
            assert(ChannelGetAttribute::MusicBPM.spec_value() == s.spec_value());
        },
        ChannelSetAttribute::MusicPanSeparation => {
            assert(ChannelGetAttribute::MusicPanSeparation.spec_value() == s.spec_value());
        },
        ChannelSetAttribute::MusicPositionScaler => {
            assert(ChannelGetAttribute::MusicPositionScaler.spec_value() == s.spec_value());
        },
        ChannelSetAttribute::MusicSpeed => {
            assert(ChannelGetAttribute::MusicSpeed.spec_value() == s.spec_value());
        },
        ChannelSetAttribute::MusicChannelVolume => {
            assert(ChannelGetAttribute::MusicChannelVolume.spec_value() == s.spec_value());
        },
        ChannelSetAttribute::MusicGlobalVolume => {
            assert(ChannelGetAttribute::MusicGlobalVolume.spec_value() == s.spec_value());
        },
        ChannelSetAttribute::MusicInstrumentVolume => {
            assert(ChannelGetAttribute::MusicInstrumentVolume.spec_value() == s.spec_value());
        },
        ChannelSetAttribute::NetworkResume => {
            assert(ChannelGetAttribute::NetworkResume.spec_value() == s.spec_value());
        },
        ChannelSetAttribute::Ramp => {
            assert(ChannelGetAttribute::Ramp.spec_value() == s.spec_value());
        },
        ChannelSetAttribute::Pan => {
            assert(ChannelGetAttribute::Pan.spec_value() == s.spec_value());
        },
        ChannelSetAttribute::BufferPushLimit => {
            assert(ChannelGetAttribute::BufferPushLimit.spec_value() == s.spec_value());
        },
        ChannelSetAttribute::SRCQuality => {
            assert(ChannelGetAttribute::SRCQuality.spec_value() == s.spec_value());
        },
        ChannelSetAttribute::Tail => {
            assert(ChannelGetAttribute::Tail.spec_value() == s.spec_value());
        },
        ChannelSetAttribute::Volume => {
            assert(ChannelGetAttribute::Volume.spec_value() == s.spec_value());
        },
        ChannelSetAttribute::VolumeDSP => {
            assert(ChannelGetAttribute::VolumeDSP.spec_value() == s.spec_value());
        },
        ChannelSetAttribute::VolumeDSPPriority => {},
    }
}

/// What BASS reports of a channel.
pub struct BassChannelInfo {
    /// default playback rate
    pub frequency: u32,
    /// channels
    pub channels: u32,
    pub flags: u32,
    /// type of channel
    pub channel_type: u32,
    /// original resolution
    pub original_resolution: u32,
    pub plugin: u32,
    pub sample: u32,
    pub filename: Option<String>,
}

} // verus!
