use ewwvolume::action::{decode, parse_action, Action, MixerCommand, Mode};

#[test]
fn encodes_each_action_as_one_tag_byte() {
    assert_eq!(Action::Up.to_bytes(), [0]);
    assert_eq!(Action::Down.to_bytes(), [1]);
    assert_eq!(Action::MuteToggle.to_bytes(), [2]);
    assert_eq!(Action::MicToggle.to_bytes(), [3]);
}

#[test]
fn decoding_an_encoded_action_gives_it_back() {
    for a in [Action::Up, Action::Down, Action::MuteToggle, Action::MicToggle] {
        assert_eq!(Action::from_bytes(&a.to_bytes()), a);
        assert_eq!(decode(&a.to_bytes()), Some(a));
    }
}

#[test]
fn short_long_or_unknown_reads_decode_to_nothing() {
    assert_eq!(decode(&[]), None);
    assert_eq!(decode(&[0, 1]), None);
    assert_eq!(decode(&[4]), None);
    assert_eq!(decode(&[255]), None);
}

#[test]
fn command_line_words_name_actions() {
    assert_eq!(parse_action(b"up"), Some(Action::Up));
    assert_eq!(parse_action(b"down"), Some(Action::Down));
    assert_eq!(parse_action(b"mute-toggle"), Some(Action::MuteToggle));
    assert_eq!(parse_action(b"mic-toggle"), Some(Action::MicToggle));
}

#[test]
fn unknown_command_line_words_are_refused() {
    assert_eq!(parse_action(b""), None);
    assert_eq!(parse_action(b"u"), None);
    assert_eq!(parse_action(b"upp"), None);
    assert_eq!(parse_action(b"UP"), None);
    assert_eq!(parse_action(b"mute"), None);
}

#[test]
fn each_action_runs_its_mixer_commands() {
    assert_eq!(Action::Up.run(), vec![MixerCommand::UnmuteSpeaker, MixerCommand::RaiseSpeaker]);
    assert_eq!(Action::Down.run(), vec![MixerCommand::LowerSpeaker]);
    assert_eq!(Action::MuteToggle.run(), vec![MixerCommand::ToggleSpeakerMute]);
    assert_eq!(Action::MicToggle.run(), vec![MixerCommand::ToggleMicMute]);
}

#[test]
fn only_the_mic_toggle_belongs_to_the_mic_mode() {
    assert_eq!(Action::Up.mode(), Mode::Volume);
    assert_eq!(Action::Down.mode(), Mode::Volume);
    assert_eq!(Action::MuteToggle.mode(), Mode::Volume);
    assert_eq!(Action::MicToggle.mode(), Mode::Mic);
}
