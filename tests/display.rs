use ewwvolume::audio::{CachedVolume, MicState};
use ewwvolume::device::{mic_state_from_report, volume_from_report};
use ewwvolume::render::{display_updates, level_text, Icon};
use ewwvolume::session::Audio;

fn icon_of(level: u32, is_muted: bool) -> Icon {
    Icon::of(&Audio::Volume(CachedVolume::new(level, is_muted)))
}

#[test]
fn level_text_has_two_decimals() {
    assert_eq!(level_text(48), "48.00");
    assert_eq!(level_text(0), "0.00");
    assert_eq!(level_text(5), "5.00");
    assert_eq!(level_text(10), "10.00");
    assert_eq!(level_text(100), "100.00");
}

#[test]
fn volume_icons_follow_the_level_bands() {
    assert_eq!(icon_of(0, false), Icon::VolumeMute);
    assert_eq!(icon_of(1, false), Icon::VolumeLow);
    assert_eq!(icon_of(32, false), Icon::VolumeLow);
    assert_eq!(icon_of(33, false), Icon::VolumeMid);
    assert_eq!(icon_of(65, false), Icon::VolumeMid);
    assert_eq!(icon_of(66, false), Icon::VolumeHigh);
    assert_eq!(icon_of(100, false), Icon::VolumeHigh);
    assert_eq!(icon_of(80, true), Icon::VolumeMute);
    assert_eq!(Icon::VolumeHigh.file(), "volume-high.png");
    assert_eq!(Icon::VolumeLow.file(), "volume-low.png");
}

#[test]
fn mic_updates_show_state_and_icon() {
    let hot = display_updates(&Audio::Mic(MicState::Hot));
    assert_eq!(hot[0].variable, "mic-state=");
    assert_eq!(hot[0].value, "HOT");
    assert_eq!(hot[1].variable, "mic-icon-resource=");
    assert_eq!(hot[1].value, "mic-hot.png");
    let muted = display_updates(&Audio::Mic(MicState::Muted));
    assert_eq!(muted[0].value, "MUTE");
    assert_eq!(muted[1].value, "mic-mute.png");
}

#[test]
fn a_muted_volume_shows_the_mute_icon() {
    let u = display_updates(&Audio::Volume(CachedVolume::new(100, true)));
    assert_eq!(u[0].value, "100.00");
    assert_eq!(u[1].value, "volume-mute.png");
}

#[test]
fn volume_reports_give_level_and_mute_flag() {
    assert_eq!(volume_from_report(b"Volume: 0.50\n"), Some(CachedVolume::new(50, false)));
    assert_eq!(volume_from_report(b"Volume: 0.35 [MUTED]\n"), Some(CachedVolume::new(35, true)));
    assert_eq!(volume_from_report(b"Volume: 0.5\n"), Some(CachedVolume::new(50, false)));
    assert_eq!(volume_from_report(b"Volume: 1.00"), Some(CachedVolume::new(100, false)));
    assert_eq!(volume_from_report(b"Volume: 1.50"), Some(CachedVolume::new(100, false)));
    assert_eq!(volume_from_report(b"Volume: 0.07"), Some(CachedVolume::new(7, false)));
    assert_eq!(volume_from_report(b"Volume: 0.999"), Some(CachedVolume::new(99, false)));
    assert_eq!(volume_from_report(b"Volume: 12"), Some(CachedVolume::new(100, false)));
    assert_eq!(volume_from_report(b"Volume: .5"), Some(CachedVolume::new(50, false)));
    assert_eq!(volume_from_report(b"Volume: 1."), Some(CachedVolume::new(100, false)));
    assert_eq!(volume_from_report(b"Volume:\t0.42\r\n"), Some(CachedVolume::new(42, false)));
}

#[test]
fn the_last_number_in_a_report_gives_the_level() {
    assert_eq!(volume_from_report(b"0.50 0.70 [MUTED]"), Some(CachedVolume::new(70, true)));
    assert_eq!(volume_from_report(b"Volume(2): 0.50"), Some(CachedVolume::new(50, false)));
    assert_eq!(volume_from_report(b"0.30 Volume(2):"), Some(CachedVolume::new(30, false)));
    assert_eq!(volume_from_report(b"Volume: 0.50 v1.2"), Some(CachedVolume::new(50, false)));
}

#[test]
fn only_a_whole_muted_piece_mutes_the_volume() {
    assert_eq!(volume_from_report(b"Volume: 0.50 x[MUTED]"), Some(CachedVolume::new(50, false)));
    assert_eq!(volume_from_report(b"Volume: 0.50 [MUTED]x"), Some(CachedVolume::new(50, false)));
    assert_eq!(volume_from_report(b"[MUTED] Volume: 0.50"), Some(CachedVolume::new(50, true)));
}

#[test]
fn a_report_without_a_number_gives_no_volume() {
    assert_eq!(volume_from_report(b""), None);
    assert_eq!(volume_from_report(b"Volume: [MUTED]"), None);
    assert_eq!(volume_from_report(b"Volume(2): ."), None);
    assert_eq!(volume_from_report(b"1.2.3 -0.5"), None);
}

#[test]
fn mic_reports_give_muted_or_hot() {
    assert_eq!(mic_state_from_report(b"Volume: 1.00 [MUTED]\n"), MicState::Muted);
    assert_eq!(mic_state_from_report(b"Volume: 1.00\n"), MicState::Hot);
    assert_eq!(mic_state_from_report(b"[MUTED"), MicState::Hot);
    assert_eq!(mic_state_from_report(b"[MUTED]"), MicState::Muted);
    assert_eq!(mic_state_from_report(b""), MicState::Hot);
}
