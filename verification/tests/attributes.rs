use bass_rs::types::channel::{ChannelGetAttribute, ChannelSetAttribute};
use bass_rs::types::channel::ChannelGetAttribute as G;

#[test]
fn attribute_values_match_bass() {
    assert_eq!(u32::from(ChannelGetAttribute::Frequency), bass_sys::BASS_ATTRIB_FREQ);
    assert_eq!(u32::from(ChannelGetAttribute::Volume), bass_sys::BASS_ATTRIB_VOL);
    assert_eq!(u32::from(ChannelGetAttribute::Pan), bass_sys::BASS_ATTRIB_PAN);
    assert_eq!(u32::from(ChannelGetAttribute::CPU), bass_sys::BASS_ATTRIB_CPU);
    assert_eq!(u32::from(ChannelGetAttribute::Bitrate), bass_sys::BASS_ATTRIB_BITRATE);
    assert_eq!(u32::from(ChannelGetAttribute::MusicChannelVolume), bass_sys::BASS_ATTRIB_MUSIC_VOL_CHAN);
    assert_eq!(u32::from(ChannelGetAttribute::VolumeDSP), 19);
    assert_eq!(u32::from(ChannelSetAttribute::Frequency), bass_sys::BASS_ATTRIB_FREQ);
    assert_eq!(u32::from(ChannelSetAttribute::Ramp), bass_sys::BASS_ATTRIB_NORAMP);
    assert_eq!(u32::from(ChannelSetAttribute::BufferPushLimit), bass_sys::BASS_ATTRIB_PUSH_LIMIT);
    assert_eq!(u32::from(ChannelSetAttribute::VolumeDSPPriority), 20);
}

#[test]
fn settable_attributes_are_readable_under_the_same_value() {
    let set = [
        ChannelSetAttribute::Buffer,
        ChannelSetAttribute::Frequency,
        ChannelSetAttribute::Volume,
        ChannelSetAttribute::Pan,
        ChannelSetAttribute::Tail,
    ];
    let get = [
        ChannelGetAttribute::Buffer,
        ChannelGetAttribute::Frequency,
        ChannelGetAttribute::Volume,
        ChannelGetAttribute::Pan,
        ChannelGetAttribute::Tail,
    ];
    for (s, g) in set.into_iter().zip(get) {
        assert_eq!(u32::from(s), u32::from(g));
    }
}

#[test]
fn attribute_values_are_distinct() {
    let all = [
        G::Bitrate, G::Buffer, G::CPU, G::Frequency, G::Granule, G::MusicActive, G::MusicAmplify, G::MusicBPM,
        G::MusicPanSeparation, G::MusicPositionScaler, G::MusicSpeed, G::MusicChannelVolume, G::MusicGlobalVolume,
        G::MusicInstrumentVolume, G::NetworkResume, G::Ramp, G::Pan, G::BufferPushLimit, G::SRCQuality, G::Tail,
        G::Volume, G::VolumeDSP,
    ];
    for (i, a) in all.iter().enumerate() {
        for b in all.iter().skip(i + 1) {
            assert_ne!(u32::from(*a), u32::from(*b));
        }
    }
}
