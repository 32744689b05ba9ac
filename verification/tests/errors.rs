use bass_rs::bass::error::{BassError, BassErrorCode};

const ALL: [(BassErrorCode, i32); 41] = [
    (BassErrorCode::BassOk, 0),
    (BassErrorCode::BassErrorMem, 1),
    (BassErrorCode::BassErrorFileOpen, 2),
    (BassErrorCode::BassErrorDriver, 3),
    (BassErrorCode::BassErrorBufferLost, 4),
    (BassErrorCode::BassErrorHandle, 5),
    (BassErrorCode::BassErrorFormat, 6),
    (BassErrorCode::BassErrorPosition, 7),
    (BassErrorCode::BassErrorInit, 8),
    (BassErrorCode::BassErrorStart, 9),
    (BassErrorCode::BassErrorSsl, 10),
    (BassErrorCode::BassErrorReInit, 11),
    (BassErrorCode::BassErrorAlready, 14),
    (BassErrorCode::BassErrorNotAudio, 17),
    (BassErrorCode::BassErrorNoChan, 18),
    (BassErrorCode::BassErrorIllType, 19),
    (BassErrorCode::BassErrorIllParam, 20),
    (BassErrorCode::BassErrorNo3D, 21),
    (BassErrorCode::BassErrorNoEax, 22),
    (BassErrorCode::BassErrorDevice, 23),
    (BassErrorCode::BassErrorNoPlay, 24),
    (BassErrorCode::BassErrorFreq, 25),
    (BassErrorCode::BassErrorNotFile, 27),
    (BassErrorCode::BassErrorNoHw, 29),
    (BassErrorCode::BassErrorEmpty, 31),
    (BassErrorCode::BassErrorNoNet, 32),
    (BassErrorCode::BassErrorCreate, 33),
    (BassErrorCode::BassErrorNoFx, 34),
    (BassErrorCode::BassErrorNotAvailable, 37),
    (BassErrorCode::BassErrorDecode, 38),
    (BassErrorCode::BassErrorDx, 39),
    (BassErrorCode::BassErrorTimeout, 40),
    (BassErrorCode::BassErrorFileForm, 41),
    (BassErrorCode::BassErrorSpeaker, 42),
    (BassErrorCode::BassErrorVersion, 43),
    (BassErrorCode::BassErrorCodec, 44),
    (BassErrorCode::BassErrorEnded, 45),
    (BassErrorCode::BassErrorBusy, 46),
    (BassErrorCode::BassErrorUnstreamable, 47),
    (BassErrorCode::BassErrorProtocol, 48),
    (BassErrorCode::BassErrorUnknown, -1),
];

#[test]
fn error_codes_match_bass() {
    for (e, c) in ALL {
        assert_eq!(e.code(), c);
        assert_eq!(BassErrorCode::from_code(c), e);
        assert_eq!(BassErrorCode::from(c), e);
    }
}

#[test]
fn undocumented_codes_are_unknown() {
    for c in [12, 13, 15, 16, 26, 28, 30, 35, 36, 49, 100, -2, i32::MIN, i32::MAX] {
        assert_eq!(BassErrorCode::from_code(c), BassErrorCode::BassErrorUnknown);
        assert_eq!(BassError::from(BassErrorCode::from_code(c)).code, -1);
    }
}

#[test]
fn unsigned_codes_are_read_as_signed() {
    assert_eq!(BassErrorCode::from(u32::MAX), BassErrorCode::BassErrorUnknown);
    assert_eq!(BassErrorCode::from(46u32), BassErrorCode::BassErrorBusy);
    assert_eq!(BassErrorCode::from(0u32), BassErrorCode::BassOk);
    assert_eq!(BassErrorCode::from(0x8000_0000u32), BassErrorCode::BassErrorUnknown);
}

#[test]
fn error_from_code_keeps_the_code() {
    for (e, c) in ALL {
        assert_eq!(BassError::from(e), BassError { code: c });
    }
}

#[test]
fn unknown_error_has_code_minus_one() {
    assert_eq!(BassError::unknown(), BassError { code: -1 });
    assert_eq!(bass_rs::error::BassError::unknown().code, -1);
}

#[test]
fn error_codes_are_distinct() {
    for (i, (a, ca)) in ALL.iter().enumerate() {
        for (b, cb) in ALL.iter().skip(i + 1) {
            assert_ne!(a, b);
            assert_ne!(ca, cb);
        }
    }
}

#[test]
fn error_code_messages() {
    assert_eq!(BassErrorCode::BassOk.message(), "All is OK");
    assert_eq!(BassErrorCode::BassErrorHandle.message(), "Invalid handle");
    assert_eq!(BassErrorCode::BassErrorDevice.message(), "Illegal/Incorrect device number");
    assert_eq!(BassErrorCode::BassErrorInit.message(), "BASS_Init has not been successfully called");
}

#[test]
fn error_messages_carry_the_code() {
    assert_eq!(BassError { code: -1 }.message(), "BASS Failed with code: -1");
    assert_eq!(BassError { code: 46 }.message(), "BASS Failed with code: 46");
    assert_eq!(BassError { code: 0 }.message(), "BASS Failed with code: 0");
    assert_eq!(BassError { code: 1000 }.message(), "BASS Failed with code: 1000");
    assert_eq!(BassError { code: i32::MIN }.message(), "BASS Failed with code: -2147483648");
    assert_eq!(BassError { code: i32::MAX }.message(), "BASS Failed with code: 2147483647");
}
