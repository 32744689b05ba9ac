use bass_rs::consts;

#[test]
fn error_constants_match_bass_sys() {
    assert_eq!(consts::BASS_OK, bass_sys::BASS_OK);
    assert_eq!(consts::BASS_ERROR_MEM, bass_sys::BASS_ERROR_MEM);
    assert_eq!(consts::BASS_ERROR_FILEOPEN, bass_sys::BASS_ERROR_FILEOPEN);
    assert_eq!(consts::BASS_ERROR_DRIVER, bass_sys::BASS_ERROR_DRIVER);
    assert_eq!(consts::BASS_ERROR_BUFLOST, bass_sys::BASS_ERROR_BUFLOST);
    assert_eq!(consts::BASS_ERROR_HANDLE, bass_sys::BASS_ERROR_HANDLE);
    assert_eq!(consts::BASS_ERROR_FORMAT, bass_sys::BASS_ERROR_FORMAT);
    assert_eq!(consts::BASS_ERROR_POSITION, bass_sys::BASS_ERROR_POSITION);
    assert_eq!(consts::BASS_ERROR_INIT, bass_sys::BASS_ERROR_INIT);
    assert_eq!(consts::BASS_ERROR_START, bass_sys::BASS_ERROR_START);
    assert_eq!(consts::BASS_ERROR_SSL, bass_sys::BASS_ERROR_SSL);
    assert_eq!(consts::BASS_ERROR_REINIT, bass_sys::BASS_ERROR_REINIT);
    assert_eq!(consts::BASS_ERROR_ALREADY, bass_sys::BASS_ERROR_ALREADY);
    assert_eq!(consts::BASS_ERROR_NOTAUDIO, bass_sys::BASS_ERROR_NOTAUDIO);
    assert_eq!(consts::BASS_ERROR_NOCHAN, bass_sys::BASS_ERROR_NOCHAN);
    assert_eq!(consts::BASS_ERROR_ILLTYPE, bass_sys::BASS_ERROR_ILLTYPE);
    assert_eq!(consts::BASS_ERROR_ILLPARAM, bass_sys::BASS_ERROR_ILLPARAM);
    assert_eq!(consts::BASS_ERROR_NO3D, bass_sys::BASS_ERROR_NO3D);
    assert_eq!(consts::BASS_ERROR_NOEAX, bass_sys::BASS_ERROR_NOEAX);
    assert_eq!(consts::BASS_ERROR_DEVICE, bass_sys::BASS_ERROR_DEVICE);
    assert_eq!(consts::BASS_ERROR_NOPLAY, bass_sys::BASS_ERROR_NOPLAY);
    assert_eq!(consts::BASS_ERROR_FREQ, bass_sys::BASS_ERROR_FREQ);
    assert_eq!(consts::BASS_ERROR_NOTFILE, bass_sys::BASS_ERROR_NOTFILE);
    assert_eq!(consts::BASS_ERROR_NOHW, bass_sys::BASS_ERROR_NOHW);
    assert_eq!(consts::BASS_ERROR_EMPTY, bass_sys::BASS_ERROR_EMPTY);
    assert_eq!(consts::BASS_ERROR_NONET, bass_sys::BASS_ERROR_NONET);
    assert_eq!(consts::BASS_ERROR_CREATE, bass_sys::BASS_ERROR_CREATE);
    assert_eq!(consts::BASS_ERROR_NOFX, bass_sys::BASS_ERROR_NOFX);
    assert_eq!(consts::BASS_ERROR_NOTAVAIL, bass_sys::BASS_ERROR_NOTAVAIL);
    assert_eq!(consts::BASS_ERROR_DECODE, bass_sys::BASS_ERROR_DECODE);
    assert_eq!(consts::BASS_ERROR_DX, bass_sys::BASS_ERROR_DX);
    assert_eq!(consts::BASS_ERROR_TIMEOUT, bass_sys::BASS_ERROR_TIMEOUT);
    assert_eq!(consts::BASS_ERROR_FILEFORM, bass_sys::BASS_ERROR_FILEFORM);
    assert_eq!(consts::BASS_ERROR_SPEAKER, bass_sys::BASS_ERROR_SPEAKER);
    assert_eq!(consts::BASS_ERROR_VERSION, bass_sys::BASS_ERROR_VERSION);
    assert_eq!(consts::BASS_ERROR_CODEC, bass_sys::BASS_ERROR_CODEC);
    assert_eq!(consts::BASS_ERROR_ENDED, bass_sys::BASS_ERROR_ENDED);
    assert_eq!(consts::BASS_ERROR_BUSY, bass_sys::BASS_ERROR_BUSY);
    assert_eq!(consts::BASS_ERROR_UNSTREAMABLE, bass_sys::BASS_ERROR_UNSTREAMABLE);
    assert_eq!(consts::BASS_ERROR_PROTOCOL, bass_sys::BASS_ERROR_PROTOCOL);
    assert_eq!(consts::BASS_ERROR_UNKNOWN, bass_sys::BASS_ERROR_UNKNOWN);
}

#[test]
fn other_constants_match_bass_sys() {
    assert_eq!(consts::BASS_ACTIVE_STOPPED, bass_sys::BASS_ACTIVE_STOPPED);
    assert_eq!(consts::BASS_ACTIVE_PLAYING, bass_sys::BASS_ACTIVE_PLAYING);
    assert_eq!(consts::BASS_ACTIVE_STALLED, bass_sys::BASS_ACTIVE_STALLED);
    assert_eq!(consts::BASS_ACTIVE_PAUSED, bass_sys::BASS_ACTIVE_PAUSED);
    assert_eq!(consts::BASS_ACTIVE_PAUSED_DEVICE, bass_sys::BASS_ACTIVE_PAUSED_DEVICE);
    assert_eq!(consts::BASS_ATTRIB_FREQ, bass_sys::BASS_ATTRIB_FREQ);
    assert_eq!(consts::BASS_ATTRIB_VOL, bass_sys::BASS_ATTRIB_VOL);
    assert_eq!(consts::BASS_ATTRIB_PAN, bass_sys::BASS_ATTRIB_PAN);
    assert_eq!(consts::BASS_ATTRIB_CPU, bass_sys::BASS_ATTRIB_CPU);
    assert_eq!(consts::BASS_ATTRIB_SRC, bass_sys::BASS_ATTRIB_SRC);
    assert_eq!(consts::BASS_ATTRIB_NET_RESUME, bass_sys::BASS_ATTRIB_NET_RESUME);
    assert_eq!(consts::BASS_ATTRIB_NORAMP, bass_sys::BASS_ATTRIB_NORAMP);
    assert_eq!(consts::BASS_ATTRIB_BITRATE, bass_sys::BASS_ATTRIB_BITRATE);
    assert_eq!(consts::BASS_ATTRIB_BUFFER, bass_sys::BASS_ATTRIB_BUFFER);
    assert_eq!(consts::BASS_ATTRIB_GRANULE, bass_sys::BASS_ATTRIB_GRANULE);
    assert_eq!(consts::BASS_ATTRIB_TAIL, bass_sys::BASS_ATTRIB_TAIL);
    assert_eq!(consts::BASS_ATTRIB_PUSH_LIMIT, bass_sys::BASS_ATTRIB_PUSH_LIMIT);
    assert_eq!(consts::BASS_ATTRIB_MUSIC_AMPLIFY, bass_sys::BASS_ATTRIB_MUSIC_AMPLIFY);
    assert_eq!(consts::BASS_ATTRIB_MUSIC_PANSEP, bass_sys::BASS_ATTRIB_MUSIC_PANSEP);
    assert_eq!(consts::BASS_ATTRIB_MUSIC_PSCALER, bass_sys::BASS_ATTRIB_MUSIC_PSCALER);
    assert_eq!(consts::BASS_ATTRIB_MUSIC_BPM, bass_sys::BASS_ATTRIB_MUSIC_BPM);
    assert_eq!(consts::BASS_ATTRIB_MUSIC_SPEED, bass_sys::BASS_ATTRIB_MUSIC_SPEED);
    assert_eq!(consts::BASS_ATTRIB_MUSIC_VOL_GLOBAL, bass_sys::BASS_ATTRIB_MUSIC_VOL_GLOBAL);
    assert_eq!(consts::BASS_ATTRIB_MUSIC_ACTIVE, bass_sys::BASS_ATTRIB_MUSIC_ACTIVE);
    assert_eq!(consts::BASS_ATTRIB_MUSIC_VOL_CHAN, bass_sys::BASS_ATTRIB_MUSIC_VOL_CHAN);
    assert_eq!(consts::BASS_ATTRIB_MUSIC_VOL_INST, bass_sys::BASS_ATTRIB_MUSIC_VOL_INST);
    assert_eq!(consts::BASS_CONFIG_FLOATDSP, bass_sys::BASS_CONFIG_FLOATDSP);
    assert_eq!(consts::BASS_CONFIG_BUFFER, bass_sys::BASS_CONFIG_BUFFER);
    assert_eq!(consts::BASS_CONFIG_UPDATEPERIOD, bass_sys::BASS_CONFIG_UPDATEPERIOD);
    assert_eq!(consts::BASS_CONFIG_DEV_DEFAULT, bass_sys::BASS_CONFIG_DEV_DEFAULT);
    assert_eq!(consts::BASS_UNICODE, bass_sys::BASS_UNICODE);
    assert_eq!(consts::BASS_CONFIG_UNICODE, bass_sys::BASS_CONFIG_UNICODE);
    assert_eq!(consts::BASS_NODEVICE, bass_sys::BASS_NODEVICE);
    assert_eq!(consts::BASS_SAMCHAN_STREAM, bass_sys::BASS_SAMCHAN_STREAM);
    assert_eq!(consts::BASS_LEVEL_MONO, bass_sys::BASS_LEVEL_MONO);
    assert_eq!(consts::BASS_LEVEL_STEREO, bass_sys::BASS_LEVEL_STEREO);
    assert_eq!(consts::BASS_FX_DX8_PARAMEQ, bass_sys::BASS_FX_DX8_PARAMEQ);
}
