//! The user-requested operation and its one-byte wire encoding.
use vstd::prelude::*;

verus! {

/// The discrete operation that one invocation asks for.
#[derive(Debug, Clone, Copy, PartialEq, Eq, Structural)]
pub enum Action {
    Up,
    Down,
    MuteToggle,
    MicToggle,
}

/// Which display a session shows: the volume overlay or the microphone overlay.
#[derive(Debug, Clone, Copy, PartialEq, Eq, Structural)]
pub enum Mode {
    Volume,
    Mic,
}

/// The wire tag of an action.
pub open spec fn tag_of(a: Action) -> u8 {
    match a {
        Action::Up => 0,
        Action::Down => 1,
        Action::MuteToggle => 2,
        Action::MicToggle => 3,
    }
}

/// The action a wire tag stands for, if any.
pub open spec fn action_of_tag(b: u8) -> Option<Action> {
    if b == 0 {
        Some(Action::Up)
    } else if b == 1 {
        Some(Action::Down)
    } else if b == 2 {
        Some(Action::MuteToggle)
    } else if b == 3 {
        Some(Action::MicToggle)
    } else {
        None
    }
}

/// The display mode an action belongs to.
pub open spec fn mode_of(a: Action) -> Mode {
    match a {
        Action::MicToggle => Mode::Mic,
        _ => Mode::Volume,
    }
}

impl Action {
    /// Encodes the action as its one-byte wire message.
    pub fn to_bytes(&self) -> (r: [u8; 1])
        ensures
            r@ == seq![tag_of(*self)],
    {
        let b: u8 = match self {
            Action::Up => 0,
            Action::Down => 1,
            Action::MuteToggle => 2,
            Action::MicToggle => 3,
        };
        let r = [b];
        assert(r@ =~= seq![b]);
        r
    }

    /// Decodes a one-byte wire message. The byte must be a valid tag.
    pub fn from_bytes(bytes: &[u8; 1]) -> (r: Self)
        requires
            action_of_tag(bytes@[0]) is Some,
        ensures
            Some(r) == action_of_tag(bytes@[0]),
    {
        decode(bytes.as_slice()).unwrap()
    }

    /// The mixer commands that carry out this action, in the order they run.
    pub fn run(self) -> (r: Vec<MixerCommand>)
        ensures
            r@ == commands_of(self),
    {
        let r = match self {
            Action::Up => vec![MixerCommand::UnmuteSpeaker, MixerCommand::RaiseSpeaker],
            Action::Down => vec![MixerCommand::LowerSpeaker],
            Action::MuteToggle => vec![MixerCommand::ToggleSpeakerMute],
            Action::MicToggle => vec![MixerCommand::ToggleMicMute],
        };
        assert(r@ =~= commands_of(self));
        r
    }

    /// The display mode this action belongs to.
    pub fn mode(&self) -> (r: Mode)
        ensures
            r == mode_of(*self),
    {
        match self {
            Action::MicToggle => Mode::Mic,
            _ => Mode::Volume,
        }
    }
}

/// A command to the system mixer.
#[derive(Debug, Clone, Copy, PartialEq, Eq, Structural)]
pub enum MixerCommand {
    /// Unmute the speaker.
    UnmuteSpeaker,
    /// Raise the speaker volume by one step, up to the top.
    RaiseSpeaker,
    /// Lower the speaker volume by one step.
    LowerSpeaker,
    /// Flip the speaker's mute flag.
    ToggleSpeakerMute,
    /// Flip the microphone's mute flag.
    ToggleMicMute,
}

/// The mixer commands that carry out an action, in order.
pub open spec fn commands_of(a: Action) -> Seq<MixerCommand> {
    match a {
        Action::Up => seq![MixerCommand::UnmuteSpeaker, MixerCommand::RaiseSpeaker],
        Action::Down => seq![MixerCommand::LowerSpeaker],
        Action::MuteToggle => seq![MixerCommand::ToggleSpeakerMute],
        Action::MicToggle => seq![MixerCommand::ToggleMicMute],
    }
}

/// The action a command-line word names: `up`, `down`, `mute-toggle` or `mic-toggle`.
pub open spec fn action_of_word(w: Seq<u8>) -> Option<Action> {
    if w == seq![117u8, 112] {
        Some(Action::Up)
    } else if w == seq![100u8, 111, 119, 110] {
        Some(Action::Down)
    } else if w == seq![109u8, 117, 116, 101, 45, 116, 111, 103, 103, 108, 101] {
        Some(Action::MuteToggle)
    } else if w == seq![109u8, 105, 99, 45, 116, 111, 103, 103, 108, 101] {
        Some(Action::MicToggle)
    } else {
        None
    }
}

fn bytes_equal(a: &[u8], b: &[u8]) -> (r: bool)
    ensures
        r == (a@ == b@),
{
    if a.len() != b.len() {
        return false;
    }
    let mut i: usize = 0;
    while i < a.len()
        invariant
            a@.len() == b@.len(),
            0 <= i <= a@.len(),
            a@.subrange(0, i as int) == b@.subrange(0, i as int),
        decreases a@.len() - i,
    {
        if a[i] != b[i] {
            assert(a@[i as int] != b@[i as int]);
            return false;
        }
        assert(a@.subrange(0, i + 1) =~= a@.subrange(0, i as int).push(a@[i as int]));
        assert(b@.subrange(0, i + 1) =~= b@.subrange(0, i as int).push(b@[i as int]));
        i = i + 1;
    }
    assert(a@ =~= a@.subrange(0, i as int));
    assert(b@ =~= b@.subrange(0, i as int));
    true
}

/// Reads the action from a command-line word; an unknown word gives none.
pub fn parse_action(word: &[u8]) -> (r: Option<Action>)
    ensures
        r == action_of_word(word@),
{
    let up: [u8; 2] = [117, 112];
    let down: [u8; 4] = [100, 111, 119, 110];
    let mute: [u8; 11] = [109, 117, 116, 101, 45, 116, 111, 103, 103, 108, 101];
    let mic: [u8; 10] = [109, 105, 99, 45, 116, 111, 103, 103, 108, 101];
    assert(up@ =~= seq![117u8, 112]);
    assert(down@ =~= seq![100u8, 111, 119, 110]);
    assert(mute@ =~= seq![109u8, 117, 116, 101, 45, 116, 111, 103, 103, 108, 101]);
    assert(mic@ =~= seq![109u8, 105, 99, 45, 116, 111, 103, 103, 108, 101]);
    if bytes_equal(word, up.as_slice()) {
        Some(Action::Up)
    } else if bytes_equal(word, down.as_slice()) {
        Some(Action::Down)
    } else if bytes_equal(word, mute.as_slice()) {
        Some(Action::MuteToggle)
    } else if bytes_equal(word, mic.as_slice()) {
        Some(Action::MicToggle)
    } else {
        None
    }
}

/// Decodes what was read from the channel: exactly one byte holding a valid tag
/// gives an action; a short read, a longer read or an unknown tag gives none.
pub fn decode(bytes: &[u8]) -> (r: Option<Action>)
    ensures
        r == (if bytes@.len() == 1 { action_of_tag(bytes@[0]) } else { None }),
{
    if bytes.len() != 1 {
        return None;
    }
    let b = bytes[0];
    if b == 0 {
        Some(Action::Up)
    } else if b == 1 {
        Some(Action::Down)
    } else if b == 2 {
        Some(Action::MuteToggle)
    } else if b == 3 {
        Some(Action::MicToggle)
    } else {
        None
    }
}

/// Decoding an encoded action gives the action back.
pub proof fn lemma_tag_round_trip(a: Action)
    ensures
        action_of_tag(tag_of(a)) == Some(a),
{
}

} // verus!
