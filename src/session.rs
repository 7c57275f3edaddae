//! A running server's session: the cached state of one mode, the time of the
//! last activity, and the decision taken on each tick of the accept loop.
use vstd::prelude::*;

use crate::action::{Action, Mode, mode_of};
use crate::audio::{AudioState, CachedVolume, MicState, flipped, volume_after};

verus! {

/// How long a session waits without a message before it shuts down, in milliseconds.
pub const IDLE_TIMEOUT_MS: u64 = 900;

/// The state a session owns: the speaker volume or the microphone.
#[derive(Debug, Clone, Copy, PartialEq, Eq, Structural)]
pub enum Audio {
    Volume(CachedVolume),
    Mic(MicState),
}

/// The mode of a state.
pub open spec fn audio_mode(a: Audio) -> Mode {
    match a {
        Audio::Volume(_) => Mode::Volume,
        Audio::Mic(_) => Mode::Mic,
    }
}

/// A state holds its invariant.
pub open spec fn audio_wf(a: Audio) -> bool {
    match a {
        Audio::Volume(v) => v.wf(),
        Audio::Mic(_) => true,
    }
}

/// A state after an action of its own mode; an action of the other mode leaves it.
pub open spec fn audio_after(a: Audio, action: Action) -> Audio {
    match a {
        Audio::Volume(v) => Audio::Volume(volume_after(v, action)),
        Audio::Mic(m) => if action == Action::MicToggle {
            Audio::Mic(flipped(m))
        } else {
            a
        },
    }
}

impl Audio {
    /// The mode this state belongs to.
    pub fn mode(&self) -> (r: Mode)
        ensures
            r == audio_mode(*self),
    {
        match self {
            Audio::Volume(_) => Mode::Volume,
            Audio::Mic(_) => Mode::Mic,
        }
    }

    /// Applies an action of this state's mode; leaves the state and reports any other.
    pub fn apply(&mut self, action: Action) -> (r: bool)
        requires
            audio_wf(*old(self)),
        ensures
            r == (mode_of(action) == audio_mode(*old(self))),
            *final(self) == audio_after(*old(self), action),
            audio_wf(*final(self)),
    {
        match self {
            Audio::Volume(v) => v.update_from(action).is_ok(),
            Audio::Mic(m) => m.update_from(action).is_ok(),
        }
    }
}

/// The time since the last activity; a clock that went back counts as no time.
pub open spec fn idle_for(now: u64, last: u64) -> int {
    if now >= last {
        now - last
    } else {
        0
    }
}

/// What the accept loop does after a tick.
#[derive(Debug, Clone, Copy, PartialEq, Eq, Structural)]
pub enum Step {
    /// Nothing changed; poll again after a short sleep.
    Wait,
    /// The action was applied: carry it out on the mixer and re-render the display.
    Applied(Action),
    /// The action belongs to the other mode: end this session, close its display
    /// and channel, and start a session of the other mode with the action.
    SwitchMode(Action),
    /// Idle for too long: close the display and the channel and exit.
    Shutdown,
}

/// Whether a step ends the session.
pub open spec fn ends_session(s: Step) -> bool {
    s is SwitchMode || s is Shutdown
}

/// The session and step that one tick gives.
pub open spec fn tick_spec(audio: Audio, last: u64, message: Option<Action>, now: u64) -> (
    Audio,
    u64,
    Step,
) {
    match message {
        Some(a) => if mode_of(a) != audio_mode(audio) {
            (audio, last, Step::SwitchMode(a))
        } else {
            (audio_after(audio, a), now, Step::Applied(a))
        },
        None => if idle_for(now, last) >= IDLE_TIMEOUT_MS {
            (audio, last, Step::Shutdown)
        } else {
            (audio, last, Step::Wait)
        },
    }
}

/// The server's session: its state and the time, in milliseconds, of its last activity.
#[derive(Debug, Clone, Copy, PartialEq, Eq, Structural)]
pub struct Session {
    pub audio: Audio,
    pub last_activity: u64,
}

impl Session {
    /// The session holds its invariant.
    pub open spec fn wf(&self) -> bool {
        audio_wf(self.audio)
    }

    /// A session on a freshly read state, with the first action applied and the
    /// idle clock started now. The state must be of the action's mode.
    pub fn begin(initial_action: Action, device: Audio, now: u64) -> (r: Session)
        requires
            audio_wf(device),
            audio_mode(device) == mode_of(initial_action),
        ensures
            r.wf(),
            r.audio == audio_after(device, initial_action),
            r.last_activity == now,
    {
        let mut audio = device;
        audio.apply(initial_action);
        Session { audio, last_activity: now }
    }

    /// The display mode of the session.
    pub fn mode(&self) -> (r: Mode)
        ensures
            r == audio_mode(self.audio),
    {
        self.audio.mode()
    }

    /// How long the session has been idle at time `now`.
    pub fn age(&self, now: u64) -> (r: u64)
        ensures
            r == idle_for(now, self.last_activity),
    {
        if now >= self.last_activity {
            now - self.last_activity
        } else {
            0
        }
    }

    /// Restarts the idle clock at `now`.
    pub fn reset(&mut self, now: u64)
        ensures
            final(self).audio == old(self).audio,
            final(self).last_activity == now,
    {
        self.last_activity = now;
    }

    /// One tick of the accept loop at time `now`, with the message read this tick,
    /// if one was. A message of the session's mode is applied and restarts the idle
    /// clock; one of the other mode ends the session unchanged; with no message the
    /// session ends once it has been idle for the timeout.
    pub fn tick(&mut self, message: Option<Action>, now: u64) -> (r: Step)
        requires
            old(self).wf(),
        ensures
            final(self).wf(),
            (final(self).audio, final(self).last_activity, r) == tick_spec(
                old(self).audio,
                old(self).last_activity,
                message,
                now,
            ),
    {
        match message {
            Some(a) => {
                if a.mode() != self.mode() {
                    Step::SwitchMode(a)
                } else {
                    self.audio.apply(a);
                    self.reset(now);
                    Step::Applied(a)
                }
            },
            None => {
                if self.age(now) >= IDLE_TIMEOUT_MS {
                    Step::Shutdown
                } else {
                    Step::Wait
                }
            },
        }
    }
}

} // verus!
