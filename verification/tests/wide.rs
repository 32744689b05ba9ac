use bass_rs::wide::{plugin_file_name, plugin_wide_name, unicode_flags, wide_path};

#[test]
fn wide_path_is_nul_terminated_utf16() {
    assert_eq!(wide_path("ab"), vec![0x61, 0x62, 0]);
    assert_eq!(wide_path(""), vec![0]);
    assert_eq!(wide_path("é𝄞"), vec![0xe9, 0xd834, 0xdd1e, 0]);
}

#[test]
fn wide_path_stops_at_the_first_nul() {
    assert_eq!(wide_path("ab\0cd"), vec![0x61, 0x62, 0]);
}

#[test]
fn plugin_names_refuse_nul() {
    assert_eq!(plugin_file_name("bassflac.so"), Some(b"bassflac.so\0".to_vec()));
    assert_eq!(plugin_file_name("a\0b"), None);
    assert_eq!(plugin_file_name(""), Some(vec![0]));
}

#[test]
fn unicode_flag_is_added() {
    assert_eq!(unicode_flags(0), bass_sys::BASS_UNICODE);
    assert_eq!(unicode_flags(4), bass_sys::BASS_UNICODE | 4);
}

#[test]
fn plugin_wide_names() {
    assert_eq!(plugin_wide_name("bassflac.dll"), Some("bassflac.dll\0".encode_utf16().collect::<Vec<u16>>()));
    assert_eq!(plugin_wide_name(""), Some(vec![0u16]));
    assert_eq!(plugin_wide_name("a\u{1D11E}"), Some(vec![0x61, 0xD834, 0xDD1E, 0]));
    assert_eq!(plugin_wide_name("\u{E9}"), Some(vec![0xE9, 0]));
    // A nul before the end: the plugin is skipped.
    assert_eq!(plugin_wide_name("a\0b"), None);
    assert_eq!(plugin_wide_name("\0\0"), None);
    // A name that ends in its only nul is already terminated.
    assert_eq!(plugin_wide_name("ab\0"), Some(vec![0x61, 0x62, 0]));
}
