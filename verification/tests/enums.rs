use bass_rs::enums::ChannelState;

const STATES: [(ChannelState, u32); 7] = [
    (ChannelState::BassActiveStopped, 0),
    (ChannelState::BassActivePlaying, 1),
    (ChannelState::BassActiveStalled, 2),
    (ChannelState::BassActivePaused, 3),
    (ChannelState::BassActivePausedDevice, 4),
    (ChannelState::BassActiveWaiting, 5),
    (ChannelState::BassActiveQueued, 6),
];

#[test]
fn channel_states_round_trip() {
    for (s, v) in STATES {
        assert_eq!(u32::from(s), v);
        assert_eq!(ChannelState::from(v), s);
    }
}

#[test]
fn undocumented_states_read_as_stopped() {
    for v in [7u32, 8, 100, u32::MAX] {
        assert_eq!(ChannelState::from(v), ChannelState::BassActiveStopped);
    }
}
