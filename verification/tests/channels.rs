use std::collections::hash_map::DefaultHasher;
use std::hash::{Hash, Hasher};
use bass_rs::channel::handle::HasHandle;
use bass_rs::channel::{level_count, Channel};
use bass_rs::music::Music;
use bass_rs::stream::device::DeviceStream;
use bass_rs::stream::maybe::MaybeStream;
use bass_rs::stream::{MemoryDataOrDownloadProc, Stream};

#[test]
fn level_count_follows_flags() {
    assert_eq!(level_count(bass_sys::BASS_LEVEL_MONO), Some(1));
    assert_eq!(level_count(bass_sys::BASS_LEVEL_STEREO), Some(2));
    assert_eq!(level_count(bass_sys::BASS_LEVEL_MONO | bass_sys::BASS_LEVEL_STEREO), Some(1));
    assert_eq!(level_count(0), None);
    assert_eq!(level_count(bass_sys::BASS_LEVEL_RMS), None);
    assert_eq!(level_count(bass_sys::BASS_LEVEL_RMS | bass_sys::BASS_LEVEL_STEREO), Some(2));
}

#[test]
fn handles_are_kept() {
    let music = Music::from_load_result(42).unwrap();
    assert_eq!(music.handle(), 42);
    assert_eq!(music.raw_handle(), 42);
    assert!(music.represents_handle(42));
    assert!(!music.represents_handle(0));
    let device = DeviceStream::from_handle(9);
    assert!(device.represents_handle(9));
    let maybe = MaybeStream::from_probe(11, false).unwrap();
    assert_eq!(maybe.raw_handle(), 11);
}

#[test]
fn streams_compare_by_handle() {
    let a: Stream<()> = Stream::from_create_result(5, None).unwrap();
    let b: Stream<()> = Stream::from_create_result(5, Some(MemoryDataOrDownloadProc::MemoryStream(vec![1, 2]))).unwrap();
    let c: Stream<()> = Stream::from_create_result(6, None).unwrap();
    assert!(a == b);
    assert!(a != c);
    assert_eq!(a.handle(), 5);
}

#[test]
fn bass_options_default() {
    let options = bass_rs::bass::BassOptions::default();
    assert_eq!(options.device, None);
    assert_eq!(options.frequency, 44100);
}

#[test]
fn sample_keeps_its_handle() {
    let sample = bass_rs::sample::Sample::from_load_result(77).unwrap();
    assert_eq!(sample.handle(), 77);
    let dummy = bass_rs::stream::dummy::DummyStream::from_create_result(3);
    assert!(dummy.is_ok());
    let push = bass_rs::stream::push::PushStream::from_create_result(12).unwrap();
    assert_eq!(push.handle(), 12);
    let plugin = bass_rs::bass::plugin::Plugin::from_load_result(4).unwrap();
    assert_eq!(plugin.handle(), 4);
    assert_eq!(plugin.nonzero_handle(), 4);
}

#[test]
fn streams_hash_as_their_handle() {
    let a: Stream<()> = Stream::from_create_result(5, None).unwrap();
    let mut h1 = DefaultHasher::new();
    a.hash(&mut h1);
    let mut h2 = DefaultHasher::new();
    5u32.hash(&mut h2);
    assert_eq!(h1.finish(), h2.finish());
}
