//! Which role an invocation takes, and a server's hold on the coordination
//! address from its first bind to the end of its session.
use vstd::prelude::*;

use crate::action::{Action, Mode, mode_of};
use crate::channel::{ChannelAddress, Entry, bound, cleared};
use crate::session::{
    Audio,
    IDLE_TIMEOUT_MS,
    Session,
    Step,
    audio_after,
    audio_mode,
    audio_wf,
    ends_session,
    idle_for,
    tick_spec,
};

verus! {

/// The part an invocation plays.
#[derive(Debug, Clone, Copy, PartialEq, Eq, Structural)]
pub enum Role {
    /// The action reached a running server; nothing more to do.
    Client,
    /// No server took the action: carry it out here, then try to become the server.
    Server,
}

/// An invocation is a client only when it reached a server and the write of its
/// action succeeded; otherwise it carries the action out itself.
pub fn choose_role(connected: bool, forwarded: bool) -> (r: Role)
    ensures
        r == (if connected && forwarded { Role::Client } else { Role::Server }),
{
    if connected && forwarded {
        Role::Client
    } else {
        Role::Server
    }
}

/// The display window as the server has opened and closed it: at most one is
/// open, and a window is opened only when none is.
#[derive(Debug, Clone, Copy, PartialEq, Eq, Structural)]
pub struct Overlay {
    pub window: Option<Mode>,
}

impl Overlay {
    /// No window open.
    pub fn new() -> (r: Self)
        ensures
            r.window is None,
    {
        Overlay { window: None }
    }

    /// Opens the window of a mode; the previous one must have been closed.
    pub fn open(&mut self, mode: Mode)
        requires
            old(self).window is None,
        ensures
            final(self).window == Some(mode),
    {
        self.window = Some(mode);
    }

    /// Closes the open window, if any.
    pub fn close(&mut self)
        ensures
            final(self).window is None,
    {
        self.window = None;
    }
}

/// Clears a stale entry at the address and binds it for `pid`. On success the
/// window of the first action's mode opens and the session starts from the
/// freshly read state with that action applied; a process that loses the bind
/// gets no session, opens no window and stays local.
pub fn start_server_from(
    channel: &mut ChannelAddress,
    overlay: &mut Overlay,
    pid: u64,
    initial_action: Action,
    device: Audio,
    now: u64,
) -> (r: Option<Session>)
    requires
        audio_wf(device),
        audio_mode(device) == mode_of(initial_action),
        old(overlay).window is None,
    ensures
        (final(channel).entry, r is Some) == bound(cleared(old(channel).entry), pid),
        final(overlay).window == (if r is Some {
            Some(mode_of(initial_action))
        } else {
            None
        }),
        r matches Some(s) ==> s.wf() && s.audio == audio_after(device, initial_action)
            && s.last_activity == now,
{
    if channel.claim(pid) {
        overlay.open(initial_action.mode());
        Some(Session::begin(initial_action, device, now))
    } else {
        None
    }
}

/// One tick of the server `pid`, which holds the address and shows the window of
/// its session's mode. When the step ends the session, the window closes and the
/// address is released; otherwise both stay.
pub fn serve_tick(
    channel: &mut ChannelAddress,
    overlay: &mut Overlay,
    pid: u64,
    session: &mut Session,
    message: Option<Action>,
    now: u64,
) -> (r: Step)
    requires
        old(session).wf(),
        old(channel).entry == Entry::Listening(pid),
        old(overlay).window == Some(audio_mode(old(session).audio)),
    ensures
        final(session).wf(),
        (final(session).audio, final(session).last_activity, r) == tick_spec(
            old(session).audio,
            old(session).last_activity,
            message,
            now,
        ),
        final(channel).entry == (if ends_session(r) {
            Entry::Absent
        } else {
            Entry::Listening(pid)
        }),
        final(overlay).window == (if ends_session(r) {
            None
        } else {
            old(overlay).window
        }),
{
    let step = session.tick(message, now);
    match step {
        Step::SwitchMode(_) | Step::Shutdown => {
            channel.release(pid);
            overlay.close();
        },
        _ => {},
    }
    step
}

/// What follows a session that ended: a mode switch starts the next session with
/// the action that asked for it; an idle shutdown, and only that, ends the
/// server process.
pub fn after_session(step: Step) -> (r: Option<Action>)
    requires
        ends_session(step),
    ensures
        r == (match step {
            Step::SwitchMode(a) => Some(a),
            _ => None,
        }),
        r is None <==> step == Step::Shutdown,
{
    match step {
        Step::SwitchMode(a) => Some(a),
        _ => None,
    }
}

/// A server that hears nothing ends its session, which releases its address
/// and closes its window (see `serve_tick`), exactly once it has been idle for the timeout; before that
/// it keeps waiting and its session stays as it was.
pub proof fn lemma_idle_shutdown(s: Session, now: u64)
    requires
        s.wf(),
    ensures
        idle_for(now, s.last_activity) >= IDLE_TIMEOUT_MS ==> tick_spec(
            s.audio,
            s.last_activity,
            None,
            now,
        ).2 == Step::Shutdown && ends_session(Step::Shutdown),
        idle_for(now, s.last_activity) < IDLE_TIMEOUT_MS ==> tick_spec(
            s.audio,
            s.last_activity,
            None,
            now,
        ) == (s.audio, s.last_activity, Step::Wait) && !ends_session(Step::Wait),
{
}

} // verus!
