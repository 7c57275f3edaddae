//! The cached audio state a server owns, and how an action changes it.
//!
//! Volume levels are whole percent, from 0 to 100.
use vstd::prelude::*;

use crate::action::{Action, Mode, mode_of};

verus! {

/// How far one `Up` or `Down` moves the level, in percent.
pub const VOLUME_STEP: u32 = 2;

/// The highest volume level, in percent.
pub const MAX_LEVEL: u32 = 100;

/// An action was applied to a state of the other mode.
#[derive(Debug, Clone, Copy, PartialEq, Eq, Structural)]
pub struct UnexpectedAction {
    pub action: Action,
}

/// A state that actions of one mode change.
pub trait AudioState: Sized {
    /// The state holds its invariant.
    spec fn wf(&self) -> bool;

    /// Whether an action belongs to this state's mode.
    spec fn accepts(action: Action) -> bool;

    /// The state after an accepted action.
    spec fn after(&self, action: Action) -> Self;

    /// Whether an action belongs to the other mode, so that a session on this
    /// state has to end and hand the action on.
    fn should_break_on(action: Action) -> (r: bool)
        ensures
            r == !Self::accepts(action),
    ;

    /// Applies an accepted action; leaves the state as it is and reports any
    /// other action.
    fn update_from(&mut self, action: Action) -> (r: Result<(), UnexpectedAction>)
        requires
            old(self).wf(),
        ensures
            final(self).wf(),
            Self::accepts(action) ==> r is Ok && *final(self) == old(self).after(action),
            !Self::accepts(action) ==> r == Err::<(), UnexpectedAction>(UnexpectedAction { action })
                && *final(self) == *old(self),
    ;
}

/// The microphone: muted, or hot.
#[derive(Debug, Clone, Copy, PartialEq, Eq, Structural)]
pub enum MicState {
    Muted,
    Hot,
}

/// The other microphone state.
pub open spec fn flipped(m: MicState) -> MicState {
    match m {
        MicState::Muted => MicState::Hot,
        MicState::Hot => MicState::Muted,
    }
}

impl MicState {
    /// Flips between muted and hot.
    pub fn toggle(&mut self)
        ensures
            *final(self) == flipped(*old(self)),
    {
        if *self == MicState::Muted {
            *self = MicState::Hot;
        } else {
            *self = MicState::Muted;
        }
    }
}

impl AudioState for MicState {
    open spec fn wf(&self) -> bool {
        true
    }

    open spec fn accepts(action: Action) -> bool {
        action == Action::MicToggle
    }

    open spec fn after(&self, action: Action) -> Self {
        flipped(*self)
    }

    fn should_break_on(action: Action) -> (r: bool) {
        match action {
            Action::MicToggle => false,
            _ => true,
        }
    }

    fn update_from(&mut self, action: Action) -> (r: Result<(), UnexpectedAction>) {
        match action {
            Action::MicToggle => {
                self.toggle();
                Ok(())
            },
            _ => Err(UnexpectedAction { action }),
        }
    }
}

/// The speaker volume as last known: a level in percent and a mute flag.
#[derive(Debug, Clone, Copy, PartialEq, Eq, Structural)]
pub struct CachedVolume {
    pub level: u32,
    pub is_muted: bool,
}

/// The level one step up, saturating at the top.
pub open spec fn level_up(level: u32) -> u32 {
    if level + VOLUME_STEP >= MAX_LEVEL {
        MAX_LEVEL
    } else {
        (level + VOLUME_STEP) as u32
    }
}

/// The level one step down, saturating at zero.
pub open spec fn level_down(level: u32) -> u32 {
    if level <= VOLUME_STEP {
        0
    } else {
        (level - VOLUME_STEP) as u32
    }
}

/// The volume after an action of the volume mode; any other action leaves it.
pub open spec fn volume_after(v: CachedVolume, action: Action) -> CachedVolume {
    match action {
        Action::Up => CachedVolume { level: level_up(v.level), is_muted: false },
        Action::Down => CachedVolume { level: level_down(v.level), is_muted: v.is_muted },
        Action::MuteToggle => CachedVolume { level: v.level, is_muted: !v.is_muted },
        Action::MicToggle => v,
    }
}

impl CachedVolume {
    /// A volume from a level in percent, clamped to the valid range.
    pub fn new(level: u32, is_muted: bool) -> (r: Self)
        ensures
            r.level == (if level > MAX_LEVEL { MAX_LEVEL } else { level }),
            r.is_muted == is_muted,
            r.wf(),
    {
        let level = if level > MAX_LEVEL { MAX_LEVEL } else { level };
        CachedVolume { level, is_muted }
    }

    /// Flips the mute flag; the level stays.
    pub fn toggle(&mut self)
        ensures
            final(self).level == old(self).level,
            final(self).is_muted == !old(self).is_muted,
    {
        if self.is_muted {
            self.is_muted = false;
        } else {
            self.is_muted = true;
        }
    }
}

impl AudioState for CachedVolume {
    open spec fn wf(&self) -> bool {
        self.level <= MAX_LEVEL
    }

    open spec fn accepts(action: Action) -> bool {
        mode_of(action) == Mode::Volume
    }

    open spec fn after(&self, action: Action) -> Self {
        volume_after(*self, action)
    }

    fn should_break_on(action: Action) -> (r: bool) {
        if action == Action::MicToggle {
            true
        } else {
            false
        }
    }

    fn update_from(&mut self, action: Action) -> (r: Result<(), UnexpectedAction>) {
        match action {
            Action::Up => {
                self.level = if self.level >= MAX_LEVEL - VOLUME_STEP {
                    MAX_LEVEL
                } else {
                    self.level + VOLUME_STEP
                };
                self.is_muted = false;
                Ok(())
            },
            Action::Down => {
                self.level = if self.level <= VOLUME_STEP {
                    0
                } else {
                    self.level - VOLUME_STEP
                };
                Ok(())
            },
            Action::MuteToggle => {
                self.toggle();
                Ok(())
            },
            Action::MicToggle => Err(UnexpectedAction { action }),
        }
    }
}

/// The volume after a sequence of actions, applied in order.
pub open spec fn volume_after_all(v: CachedVolume, actions: Seq<Action>) -> CachedVolume
    decreases actions.len(),
{
    if actions.len() == 0 {
        v
    } else {
        volume_after_all(volume_after(v, actions[0]), actions.drop_first())
    }
}

/// Whatever actions are applied to a level in range, the level stays in range.
pub proof fn lemma_level_stays_in_range(v: CachedVolume, actions: Seq<Action>)
    requires
        v.wf(),
    ensures
        volume_after_all(v, actions).wf(),
    decreases actions.len(),
{
    if actions.len() > 0 {
        lemma_level_stays_in_range(volume_after(v, actions[0]), actions.drop_first());
    }
}

/// `Up` always unmutes; `Down` keeps the mute flag; `MuteToggle` flips it.
pub proof fn lemma_mute_flag(v: CachedVolume)
    ensures
        !volume_after(v, Action::Up).is_muted,
        volume_after(v, Action::Down).is_muted == v.is_muted,
        volume_after(v, Action::MuteToggle).is_muted == !v.is_muted,
{
}

/// Two mute toggles give back the same volume, and any number of them keeps the level.
pub proof fn lemma_mute_toggle_twice(v: CachedVolume, toggles: Seq<Action>)
    requires
        forall|i: int| 0 <= i < toggles.len() ==> toggles[i] == Action::MuteToggle,
    ensures
        volume_after(volume_after(v, Action::MuteToggle), Action::MuteToggle) == v,
        volume_after_all(v, toggles).level == v.level,
    decreases toggles.len(),
{
    if toggles.len() > 0 {
        let rest = toggles.drop_first();
        assert forall|i: int| 0 <= i < rest.len() implies rest[i] == Action::MuteToggle by {
            assert(rest[i] == toggles[i + 1]);
        }
        lemma_mute_toggle_twice(volume_after(v, toggles[0]), rest);
    }
}

/// Two microphone toggles give back the same state.
pub proof fn lemma_mic_toggle_twice(m: MicState)
    ensures
        flipped(flipped(m)) == m,
{
}

} // verus!
