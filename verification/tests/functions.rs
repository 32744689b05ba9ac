use bass_rs::functions::{make_long, make_word};

#[test]
fn test_helpers() {
    assert_eq!(make_word(0b110000000000001111), (0b11, 0b1111));
}

#[test]
fn make_long_joins_halves() {
    assert_eq!(make_long(0b11, 0b1111), 0b110000000000001111);
    assert_eq!(make_long(0xffff, 0xffff), u32::MAX);
    assert_eq!(make_long(0, 0), 0);
}

#[test]
fn make_word_round_trip() {
    for v in [0u32, 1, 0xffff, 0x10000, 0x1234_5678, u32::MAX] {
        let (hi, lo) = make_word(v);
        assert_eq!(make_long(hi, lo), v);
    }
}

#[test]
fn make_word_splits_halves() {
    assert_eq!(make_word(0x1234_5678), (0x1234, 0x5678));
    assert_eq!(make_word(u32::MAX), (0xffff, 0xffff));
    assert_eq!(make_word(0xffff), (0, 0xffff));
}
