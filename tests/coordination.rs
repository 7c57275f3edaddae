use ewwvolume::action::{Action, Mode};
use ewwvolume::audio::{CachedVolume, MicState};
use ewwvolume::channel::{ChannelAddress, Entry};
use ewwvolume::coordinator::{after_session, choose_role, serve_tick, start_server_from, Overlay, Role};
use ewwvolume::render::{display_updates, window_name};
use ewwvolume::session::{Audio, Session, Step, IDLE_TIMEOUT_MS};

fn volume(level: u32, is_muted: bool) -> Audio {
    Audio::Volume(CachedVolume::new(level, is_muted))
}

#[test]
fn a_process_that_reaches_a_server_is_a_client() {
    assert_eq!(choose_role(true, true), Role::Client);
    assert_eq!(choose_role(true, false), Role::Server);
    assert_eq!(choose_role(false, false), Role::Server);
}

#[test]
fn first_invocation_becomes_the_server_and_stays_until_idle() {
    let mut channel = ChannelAddress::new();
    let mut overlay = Overlay::new();
    assert!(!channel.connect());
    assert_eq!(choose_role(channel.connect(), false), Role::Server);
    let mut session = start_server_from(&mut channel, &mut overlay, 7, Action::Up, volume(50, false), 1_000).unwrap();
    assert_eq!(session.audio, volume(52, false));
    assert_eq!(overlay.window, Some(Mode::Volume));
    assert_eq!(window_name(session.mode()), "volume-float");
    assert_eq!(channel.entry, Entry::Listening(7));
    assert!(channel.connect());
    assert_eq!(serve_tick(&mut channel, &mut overlay, 7, &mut session, None, 1_008), Step::Wait);
    assert_eq!(serve_tick(&mut channel, &mut overlay, 7, &mut session, None, 1_899), Step::Wait);
    assert_eq!(channel.entry, Entry::Listening(7));
    assert_eq!(overlay.window, Some(Mode::Volume));
    let step = serve_tick(&mut channel, &mut overlay, 7, &mut session, None, 1_900);
    assert_eq!(step, Step::Shutdown);
    assert_eq!(channel.entry, Entry::Absent);
    assert_eq!(overlay.window, None);
    assert!(!channel.connect());
    assert_eq!(after_session(step), None);
}

#[test]
fn a_forwarded_down_lowers_the_level_and_renders_it() {
    let mut channel = ChannelAddress::new();
    let mut overlay = Overlay::new();
    let mut session = start_server_from(&mut channel, &mut overlay, 1, Action::Up, volume(48, false), 0).unwrap();
    assert_eq!(session.audio, volume(50, false));
    let step = serve_tick(&mut channel, &mut overlay, 1, &mut session, Some(Action::Down), 100);
    assert_eq!(step, Step::Applied(Action::Down));
    assert_eq!(session.audio, volume(48, false));
    assert_eq!(session.last_activity, 100);
    assert_eq!(overlay.window, Some(Mode::Volume));
    let updates = display_updates(&session.audio);
    assert_eq!(updates.len(), 2);
    assert_eq!(updates[0].variable, "volume-level=");
    assert_eq!(updates[0].value, "48.00");
    assert_eq!(updates[1].variable, "volume-icon-resource=");
    assert_eq!(updates[1].value, "volume-mid.png");
}

#[test]
fn a_message_restarts_the_idle_clock() {
    let mut session = Session { audio: volume(20, false), last_activity: 0 };
    assert_eq!(session.tick(None, 500), Step::Wait);
    assert_eq!(session.tick(Some(Action::Up), 800), Step::Applied(Action::Up));
    assert_eq!(session.tick(None, 1_600), Step::Wait);
    assert_eq!(session.age(1_600), 800);
    assert_eq!(session.tick(None, 800 + IDLE_TIMEOUT_MS), Step::Shutdown);
}

#[test]
fn a_clock_that_goes_back_counts_as_no_idle_time() {
    let mut session = Session { audio: volume(20, false), last_activity: 5_000 };
    assert_eq!(session.age(10), 0);
    assert_eq!(session.tick(None, 10), Step::Wait);
}

#[test]
fn a_mic_action_ends_a_volume_session_and_starts_a_mic_one() {
    let mut channel = ChannelAddress::new();
    let mut overlay = Overlay::new();
    let mut session = start_server_from(&mut channel, &mut overlay, 3, Action::Up, volume(10, false), 0).unwrap();
    let step = serve_tick(&mut channel, &mut overlay, 3, &mut session, Some(Action::MicToggle), 50);
    assert_eq!(step, Step::SwitchMode(Action::MicToggle));
    assert_eq!(session.audio, volume(12, false));
    assert_eq!(channel.entry, Entry::Absent);
    assert_eq!(overlay.window, None);
    let next = after_session(step).unwrap();
    assert_eq!(next, Action::MicToggle);
    let mic = start_server_from(&mut channel, &mut overlay, 3, next, Audio::Mic(MicState::Hot), 60).unwrap();
    assert_eq!(mic.mode(), Mode::Mic);
    assert_eq!(mic.audio, Audio::Mic(MicState::Muted));
    assert_eq!(overlay.window, Some(Mode::Mic));
    assert_eq!(window_name(mic.mode()), "mic-float");
    assert_eq!(channel.entry, Entry::Listening(3));
}

#[test]
fn a_volume_action_ends_a_mic_session() {
    let mut session = Session { audio: Audio::Mic(MicState::Muted), last_activity: 0 };
    assert_eq!(session.tick(Some(Action::Down), 5), Step::SwitchMode(Action::Down));
    assert_eq!(session.audio, Audio::Mic(MicState::Muted));
    assert_eq!(session.tick(Some(Action::MicToggle), 6), Step::Applied(Action::MicToggle));
    assert_eq!(session.audio, Audio::Mic(MicState::Hot));
}

#[test]
fn exactly_one_of_many_racing_binds_succeeds() {
    let mut channel = ChannelAddress::new();
    for _ in 1..=5u64 {
        channel.clear_stale();
    }
    let won: Vec<bool> = (1..=5u64).map(|pid| channel.bind(pid)).collect();
    assert_eq!(won, vec![true, false, false, false, false]);
    assert_eq!(channel.entry, Entry::Listening(1));
}

#[test]
fn a_losing_process_gets_no_session() {
    let mut channel = ChannelAddress::new();
    assert!(start_server_from(&mut channel, &mut Overlay::new(), 1, Action::Up, volume(50, false), 0).is_some());
    assert!(start_server_from(&mut channel, &mut Overlay::new(), 2, Action::Down, volume(50, false), 0).is_none());
    assert_eq!(channel.entry, Entry::Listening(1));
}

#[test]
fn a_stale_address_is_cleared_and_claimed() {
    let mut channel = ChannelAddress::new();
    assert!(channel.claim(1));
    channel.abandon();
    assert_eq!(channel.entry, Entry::Stale);
    assert!(!channel.connect());
    assert!(!channel.bind(2));
    let session = start_server_from(&mut channel, &mut Overlay::new(), 2, Action::MuteToggle, volume(40, false), 0).unwrap();
    assert_eq!(session.audio, volume(40, true));
    assert_eq!(channel.entry, Entry::Listening(2));
}

#[test]
fn only_the_holder_releases_the_address() {
    let mut channel = ChannelAddress::new();
    channel.bind(4);
    channel.release(5);
    assert_eq!(channel.entry, Entry::Listening(4));
    channel.release(4);
    assert_eq!(channel.entry, Entry::Absent);
}

#[test]
fn a_losing_process_opens_no_window() {
    let mut channel = ChannelAddress::new();
    channel.bind(9);
    let mut overlay = Overlay::new();
    assert!(start_server_from(&mut channel, &mut overlay, 2, Action::Up, volume(50, false), 0).is_none());
    assert_eq!(overlay.window, None);
    assert_eq!(channel.entry, Entry::Listening(9));
}

#[test]
fn the_overlay_opens_and_closes_one_window() {
    let mut overlay = Overlay::new();
    overlay.open(Mode::Mic);
    assert_eq!(overlay.window, Some(Mode::Mic));
    overlay.close();
    assert_eq!(overlay.window, None);
}
