//! What the display shows for a state: the window of each mode, the icon, and
//! the values pushed to the display's variables.
use vstd::prelude::*;

use crate::action::Mode;
use crate::audio::{CachedVolume, MicState, MAX_LEVEL};
use crate::session::Audio;

verus! {

/// The name of the display window of a mode.
pub fn window_name(mode: Mode) -> (r: &'static str)
    ensures
        r@ == (match mode {
            Mode::Volume => "volume-float"@,
            Mode::Mic => "mic-float"@,
        }),
{
    match mode {
        Mode::Volume => "volume-float",
        Mode::Mic => "mic-float",
    }
}

/// The icon the display shows.
#[derive(Debug, Clone, Copy, PartialEq, Eq, Structural)]
pub enum Icon {
    VolumeMute,
    VolumeLow,
    VolumeMid,
    VolumeHigh,
    MicMute,
    MicHot,
}

/// The icon of a volume: muted or below one percent shows as muted, then low
/// below a third, middle below two thirds, and high above.
pub open spec fn volume_icon(v: CachedVolume) -> Icon {
    if v.is_muted || v.level < 1 {
        Icon::VolumeMute
    } else if v.level < 33 {
        Icon::VolumeLow
    } else if v.level < 66 {
        Icon::VolumeMid
    } else {
        Icon::VolumeHigh
    }
}

/// The icon of a microphone state.
pub open spec fn mic_icon(m: MicState) -> Icon {
    match m {
        MicState::Muted => Icon::MicMute,
        MicState::Hot => Icon::MicHot,
    }
}

/// The icon of a session's state.
pub open spec fn icon_of(a: Audio) -> Icon {
    match a {
        Audio::Volume(v) => volume_icon(v),
        Audio::Mic(m) => mic_icon(m),
    }
}

/// The image file of an icon.
pub open spec fn icon_file(i: Icon) -> Seq<char> {
    match i {
        Icon::VolumeMute => "volume-mute.png"@,
        Icon::VolumeLow => "volume-low.png"@,
        Icon::VolumeMid => "volume-mid.png"@,
        Icon::VolumeHigh => "volume-high.png"@,
        Icon::MicMute => "mic-mute.png"@,
        Icon::MicHot => "mic-hot.png"@,
    }
}

impl Icon {
    /// The icon of a session's state.
    pub fn of(a: &Audio) -> (r: Icon)
        ensures
            r == icon_of(*a),
    {
        match a {
            Audio::Volume(v) => {
                if v.is_muted || v.level < 1 {
                    Icon::VolumeMute
                } else if v.level < 33 {
                    Icon::VolumeLow
                } else if v.level < 66 {
                    Icon::VolumeMid
                } else {
                    Icon::VolumeHigh
                }
            },
            Audio::Mic(MicState::Muted) => Icon::MicMute,
            Audio::Mic(MicState::Hot) => Icon::MicHot,
        }
    }

    /// The image file of the icon.
    pub fn file(&self) -> (r: &'static str)
        ensures
            r@ == icon_file(*self),
    {
        match self {
            Icon::VolumeMute => "volume-mute.png",
            Icon::VolumeLow => "volume-low.png",
            Icon::VolumeMid => "volume-mid.png",
            Icon::VolumeHigh => "volume-high.png",
            Icon::MicMute => "mic-mute.png",
            Icon::MicHot => "mic-hot.png",
        }
    }
}

/// The decimal digit character of `d`.
pub open spec fn digit_char(d: nat) -> char {
    if d == 0 { '0' }
    else if d == 1 { '1' }
    else if d == 2 { '2' }
    else if d == 3 { '3' }
    else if d == 4 { '4' }
    else if d == 5 { '5' }
    else if d == 6 { '6' }
    else if d == 7 { '7' }
    else if d == 8 { '8' }
    else { '9' }
}

/// `n` in decimal, without leading zeros.
pub open spec fn decimal(n: nat) -> Seq<char>
    decreases n,
{
    if n < 10 {
        seq![digit_char(n)]
    } else {
        decimal(n / 10).push(digit_char(n % 10))
    }
}

/// A level as the display shows it: percent with two decimals.
pub open spec fn level_text_of(level: nat) -> Seq<char> {
    decimal(level) + seq!['.', '0', '0']
}

fn digit(d: u32) -> (r: &'static str)
    requires
        d < 10,
    ensures
        r@ == seq![digit_char(d as nat)],
{
    proof {
        reveal_strlit("0");
        reveal_strlit("1");
        reveal_strlit("2");
        reveal_strlit("3");
        reveal_strlit("4");
        reveal_strlit("5");
        reveal_strlit("6");
        reveal_strlit("7");
        reveal_strlit("8");
        reveal_strlit("9");
    }
    let r = if d == 0 { "0" }
    else if d == 1 { "1" }
    else if d == 2 { "2" }
    else if d == 3 { "3" }
    else if d == 4 { "4" }
    else if d == 5 { "5" }
    else if d == 6 { "6" }
    else if d == 7 { "7" }
    else if d == 8 { "8" }
    else { "9" };
    assert(r@ =~= seq![digit_char(d as nat)]);
    r
}

/// The level text of a volume, such as `48.00` for 48 percent.
pub fn level_text(level: u32) -> (r: String)
    requires
        level <= MAX_LEVEL,
    ensures
        r@ == level_text_of(level as nat),
{
    let mut s = String::new();
    if level >= 100 {
        s.append(digit(level / 100));
    }
    if level >= 10 {
        s.append(digit((level / 10) % 10));
    }
    s.append(digit(level % 10));
    s.append(".00");
    proof {
        reveal_strlit(".00");
        reveal_with_fuel(decimal, 3);
        if level >= 100 {
            assert(level == 100);
            assert(decimal(10) =~= seq!['1', '0']);
        }
    }
    assert(s@ =~= level_text_of(level as nat));
    s
}

/// One value pushed to a display variable; the variable name ends in `=`.
#[derive(Debug, PartialEq, Eq)]
pub struct DisplayUpdate {
    pub variable: &'static str,
    pub value: String,
}

/// The text a microphone state shows.
pub open spec fn mic_text(m: MicState) -> Seq<char> {
    match m {
        MicState::Muted => "MUTE"@,
        MicState::Hot => "HOT"@,
    }
}

/// The variables and values pushed to the display for a state: the level text
/// and the icon of a volume, or the state text and the icon of a microphone.
pub open spec fn updates_of(a: Audio) -> Seq<(Seq<char>, Seq<char>)> {
    match a {
        Audio::Volume(v) => seq![
            ("volume-level="@, level_text_of(v.level as nat)),
            ("volume-icon-resource="@, icon_file(volume_icon(v))),
        ],
        Audio::Mic(m) => seq![
            ("mic-state="@, mic_text(m)),
            ("mic-icon-resource="@, icon_file(mic_icon(m))),
        ],
    }
}

/// The updates to push to the display for a state, in order.
pub fn display_updates(a: &Audio) -> (r: Vec<DisplayUpdate>)
    requires
        crate::session::audio_wf(*a),
    ensures
        r@.len() == updates_of(*a).len(),
        forall|i: int|
            0 <= i < r@.len() ==> (#[trigger] r@[i].variable@, r@[i].value@) == updates_of(*a)[i],
{
    let icon = Icon::of(a);
    let mut r: Vec<DisplayUpdate> = Vec::new();
    match a {
        Audio::Volume(v) => {
            r.push(DisplayUpdate { variable: "volume-level=", value: level_text(v.level) });
            r.push(
                DisplayUpdate { variable: "volume-icon-resource=", value: String::from_str(icon.file()) },
            );
        },
        Audio::Mic(m) => {
            let text = match m {
                MicState::Muted => "MUTE",
                MicState::Hot => "HOT",
            };
            r.push(DisplayUpdate { variable: "mic-state=", value: String::from_str(text) });
            r.push(
                DisplayUpdate { variable: "mic-icon-resource=", value: String::from_str(icon.file()) },
            );
        },
    }
    r
}

} // verus!
