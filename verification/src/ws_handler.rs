//! The replay of the loaded recordings on one viewer connection, as a state
//! machine: the connection's task carries out each action and reports what
//! happened as the next event.

use vstd::prelude::*;
use crate::recording::RecordingV;
use crate::state::{all_vizs, lemma_state_view, vizs_of_first, WSBridgeState};
use crate::viz::{Viz, VizV};

verus! {

/// The one kind of message that a viewer is sent.
#[derive(Clone, Debug, PartialEq, Eq)]
pub enum WSMessage {
    VizUpdate(Viz),
}

/// The mathematical value of a [`WSMessage`].
pub ghost enum WSMessageV {
    VizUpdate(VizV),
}

impl DeepView for WSMessage {
    type V = WSMessageV;

    open spec fn deep_view(&self) -> WSMessageV {
        match self {
            WSMessage::VizUpdate(viz) => WSMessageV::VizUpdate(viz.deep_view()),
        }
    }
}

/// Milliseconds to wait after a message before the next one is sent.
pub const PACING_MILLIS: u64 = 50;

/// Milliseconds between the end of the replay and the server's exit, where
/// the server stops after one replay.
pub const EXIT_GRACE_MILLIS: u64 = 200;

/// How the server behaves once a replay is over.
#[derive(Clone, Copy, Debug, PartialEq, Eq, Structural)]
pub struct ReplayConfig {
    pub exit_after_serve: bool,
}

/// Sets whether the server stops after its first complete replay.
pub fn set_exit_after_serve(config: &mut ReplayConfig, exit: bool)
    ensures
        final(config).exit_after_serve == exit,
{
    config.exit_after_serve = exit;
}

/// The stage of a connection, as a viewer sees it.
#[derive(Clone, Copy, Debug, PartialEq, Eq, Structural)]
pub enum ReplayPhase {
    Idle,
    Connected,
    Streaming,
    Closed,
}

/// What happened on the connection since the last step.
#[derive(Clone, Copy, Debug, PartialEq, Eq, Structural)]
pub enum ReplayEvent {
    /// The viewer's upgrade handshake was accepted.
    Upgraded,
    /// Read access to the loaded recordings was obtained.
    StateAcquired,
    /// The message handed out last was written to the connection.
    Sent,
    /// Writing the message handed out last failed.
    SendFailed,
    /// The pacing delay asked for last is over.
    DelayElapsed,
}

/// What the connection's task does next.
#[derive(Clone, Copy, Debug, PartialEq, Eq, Structural)]
pub enum ReplayAction {
    /// Obtain read access to the loaded recordings.
    AcquireState,
    /// Send the update for this visualization of this recording.
    Send { recording: usize, viz: usize },
    /// Suspend for this many milliseconds.
    Wait { millis: u64 },
    /// Every message was sent: the replay is complete.
    Done,
    /// The replay is given up; nothing more is sent.
    Abort,
    /// The event asks for nothing.
    Ignore,
}

/// A [`ReplayAction`] with the message named by its place in replay order.
pub ghost enum ReplayActionV {
    AcquireState,
    Send(nat),
    Wait(u64),
    Done,
    Abort,
    Ignore,
}

/// The replay of the loaded recordings on one connection.
#[derive(Clone, Copy, Debug, PartialEq, Eq, Structural)]
pub enum ReplaySession {
    /// No viewer yet.
    Idle,
    /// The viewer is connected; nothing was sent.
    Connected,
    /// The update for this visualization was handed out and its outcome is awaited.
    Sending { recording: usize, viz: usize },
    /// The update for this visualization was sent and the pacing delay runs.
    Pacing { recording: usize, viz: usize },
    /// The replay is over: completed, or given up.
    Closed { completed: bool },
}

/// A [`ReplaySession`] with the current message named by its place in replay
/// order.
pub ghost enum ReplaySessionV {
    Idle,
    Connected,
    Sending(nat),
    Pacing(nat),
    Closed(bool),
}

/// The place in replay order of visualization `viz` of recording `recording`.
pub open spec fn place_of(recordings: Seq<RecordingV>, recording: nat, viz: nat) -> nat {
    vizs_of_first(recordings, recording).len() + viz
}

/// Whether `(recording, viz)` names a visualization that `recordings` holds.
pub open spec fn cursor_in_range(recordings: Seq<RecordingV>, recording: nat, viz: nat) -> bool {
    recording < recordings.len() && viz < recordings[recording as int].vizs.len()
}

/// The session that follows `session` on `event`, and what is to be done,
/// where `total` messages are to be replayed.
pub open spec fn replay_step(session: ReplaySessionV, total: nat, event: ReplayEvent) -> (
    ReplaySessionV,
    ReplayActionV,
) {
    match (session, event) {
        (ReplaySessionV::Idle, ReplayEvent::Upgraded) => (
            ReplaySessionV::Connected,
            ReplayActionV::AcquireState,
        ),
        (ReplaySessionV::Connected, ReplayEvent::StateAcquired) => replay_from(0, total),
        (ReplaySessionV::Sending(k), ReplayEvent::Sent) => (
            ReplaySessionV::Pacing(k),
            ReplayActionV::Wait(PACING_MILLIS),
        ),
        (ReplaySessionV::Sending(_), ReplayEvent::SendFailed) => (
            ReplaySessionV::Closed(false),
            ReplayActionV::Abort,
        ),
        (ReplaySessionV::Pacing(k), ReplayEvent::DelayElapsed) => replay_from(k + 1, total),
        _ => (session, ReplayActionV::Ignore),
    }
}

/// Hands out message `k`, or completes the replay where there is none.
pub open spec fn replay_from(k: nat, total: nat) -> (ReplaySessionV, ReplayActionV) {
    if k < total {
        (ReplaySessionV::Sending(k), ReplayActionV::Send(k))
    } else {
        (ReplaySessionV::Closed(true), ReplayActionV::Done)
    }
}

impl ReplayAction {
    /// The action with its message named by its place in replay order.
    pub open spec fn abs(self, recordings: Seq<RecordingV>) -> ReplayActionV {
        match self {
            ReplayAction::AcquireState => ReplayActionV::AcquireState,
            ReplayAction::Send { recording, viz } => ReplayActionV::Send(
                place_of(recordings, recording as nat, viz as nat),
            ),
            ReplayAction::Wait { millis } => ReplayActionV::Wait(millis),
            ReplayAction::Done => ReplayActionV::Done,
            ReplayAction::Abort => ReplayActionV::Abort,
            ReplayAction::Ignore => ReplayActionV::Ignore,
        }
    }
}

impl ReplaySession {
    /// The session with its current message named by its place in replay order.
    pub open spec fn abs(self, recordings: Seq<RecordingV>) -> ReplaySessionV {
        match self {
            ReplaySession::Idle => ReplaySessionV::Idle,
            ReplaySession::Connected => ReplaySessionV::Connected,
            ReplaySession::Sending { recording, viz } => ReplaySessionV::Sending(
                place_of(recordings, recording as nat, viz as nat),
            ),
            ReplaySession::Pacing { recording, viz } => ReplaySessionV::Pacing(
                place_of(recordings, recording as nat, viz as nat),
            ),
            ReplaySession::Closed { completed } => ReplaySessionV::Closed(completed),
        }
    }

    /// Whether the session's current message is one that `recordings` holds.
    pub open spec fn fits(self, recordings: Seq<RecordingV>) -> bool {
        match self {
            ReplaySession::Sending { recording, viz } => cursor_in_range(
                recordings,
                recording as nat,
                viz as nat,
            ),
            ReplaySession::Pacing { recording, viz } => cursor_in_range(
                recordings,
                recording as nat,
                viz as nat,
            ),
            _ => true,
        }
    }

    /// A session that waits for its viewer.
    pub fn new() -> (session: Self)
        ensures
            session == ReplaySession::Idle,
    {
        ReplaySession::Idle
    }

    /// The stage of the connection.
    pub fn phase(&self) -> (phase: ReplayPhase)
        ensures
            phase == match *self {
                ReplaySession::Idle => ReplayPhase::Idle,
                ReplaySession::Connected => ReplayPhase::Connected,
                ReplaySession::Sending { .. } => ReplayPhase::Streaming,
                ReplaySession::Pacing { .. } => ReplayPhase::Streaming,
                ReplaySession::Closed { .. } => ReplayPhase::Closed,
            },
    {
        match self {
            ReplaySession::Idle => ReplayPhase::Idle,
            ReplaySession::Connected => ReplayPhase::Connected,
            ReplaySession::Sending { .. } => ReplayPhase::Streaming,
            ReplaySession::Pacing { .. } => ReplayPhase::Streaming,
            ReplaySession::Closed { .. } => ReplayPhase::Closed,
        }
    }

    /// Whether the session can be stepped on `state`: its current message, if
    /// it has one, is a visualization that `state` holds.
    pub fn fits_state(&self, state: &WSBridgeState) -> (r: bool)
        ensures
            r == self.fits(state.deep_view()),
    {
        match self {
            ReplaySession::Sending { recording, viz } => cursor_fits(state, *recording, *viz),
            ReplaySession::Pacing { recording, viz } => cursor_fits(state, *recording, *viz),
            _ => true,
        }
    }
}

fn cursor_fits(state: &WSBridgeState, recording: usize, viz: usize) -> (r: bool)
    ensures
        r == cursor_in_range(state.deep_view(), recording as nat, viz as nat),
{
    proof {
        lemma_state_view(state);
    }
    recording < state.recordings.len() && viz < state.recordings[recording].vizs.len()
}

/// A visualization stands in the replay order at its place.
pub proof fn lemma_place_holds_viz(recordings: Seq<RecordingV>, recording: nat, viz: nat)
    requires
        cursor_in_range(recordings, recording, viz),
    ensures
        place_of(recordings, recording, viz) < all_vizs(recordings).len(),
        all_vizs(recordings)[place_of(recordings, recording, viz) as int]
            == recordings[recording as int].vizs[viz as int],
{
    lemma_place_within(recordings, recording, viz, recordings.len());
}

proof fn lemma_place_within(recordings: Seq<RecordingV>, recording: nat, viz: nat, n: nat)
    requires
        cursor_in_range(recordings, recording, viz),
        recording < n <= recordings.len(),
    ensures
        place_of(recordings, recording, viz) < vizs_of_first(recordings, n).len(),
        vizs_of_first(recordings, n)[place_of(recordings, recording, viz) as int]
            == recordings[recording as int].vizs[viz as int],
    decreases n,
{
    if recording + 1 < n {
        lemma_place_within(recordings, recording, viz, (n - 1) as nat);
    }
}

/// The session and action for the first visualization at or after
/// `(recording, viz)`, or the end of the replay where there is none.
fn advance(state: &WSBridgeState, recording: usize, viz: usize) -> (r: (
    ReplaySession,
    ReplayAction,
))
    requires
        recording <= state.recordings.len(),
        recording < state.recordings.len() ==> viz <= state.recordings[recording as int].vizs.len(),
        recording == state.recordings.len() ==> viz == 0,
    ensures
        r.0.fits(state.deep_view()),
        match r.1 {
            ReplayAction::Send { recording, viz } => cursor_in_range(
                state.deep_view(),
                recording as nat,
                viz as nat,
            ),
            _ => true,
        },
        (r.0.abs(state.deep_view()), r.1.abs(state.deep_view())) == replay_from(
            place_of(state.deep_view(), recording as nat, viz as nat),
            all_vizs(state.deep_view()).len(),
        ),
{
    proof {
        lemma_state_view(state);
    }
    let ghost recordings = state.deep_view();
    let ghost k = place_of(recordings, recording as nat, viz as nat);
    let mut r: usize = recording;
    let mut v: usize = viz;
    while r < state.recordings.len() && v >= state.recordings[r].vizs.len()
        invariant
            recordings == state.deep_view(),
            r <= state.recordings.len(),
            r < state.recordings.len() ==> v <= state.recordings[r as int].vizs.len(),
            r == state.recordings.len() ==> v == 0,
            place_of(recordings, r as nat, v as nat) == k,
        decreases state.recordings.len() - r,
    {
        r = r + 1;
        v = 0;
    }
    if r < state.recordings.len() {
        proof {
            lemma_place_holds_viz(recordings, r as nat, v as nat);
        }
        (ReplaySession::Sending { recording: r, viz: v }, ReplayAction::Send { recording: r, viz: v })
    } else {
        (ReplaySession::Closed { completed: true }, ReplayAction::Done)
    }
}

/// Steps the replay of one connection: takes what happened on the connection
/// and says what its task does next.
///
/// The messages are handed out in replay order, one per visualization; after
/// each one that was sent the task waits [`PACING_MILLIS`]; a failed send
/// closes the session with nothing more sent; any other event is ignored.
pub fn ws_connect(session: &mut ReplaySession, state: &WSBridgeState, event: ReplayEvent) -> (action:
    ReplayAction)
    requires
        old(session).fits(state.deep_view()),
    ensures
        final(session).fits(state.deep_view()),
        (final(session).abs(state.deep_view()), action.abs(state.deep_view())) == replay_step(
            old(session).abs(state.deep_view()),
            all_vizs(state.deep_view()).len(),
            event,
        ),
        match action {
            ReplayAction::Send { recording, viz } => {
                &&& cursor_in_range(state.deep_view(), recording as nat, viz as nat)
                &&& state.recordings[recording as int].vizs[viz as int].deep_view() == all_vizs(
                    state.deep_view(),
                )[place_of(state.deep_view(), recording as nat, viz as nat) as int]
            },
            _ => true,
        },
{
    proof {
        lemma_state_view(state);
    }
    let (next, action) = match (*session, event) {
        (ReplaySession::Idle, ReplayEvent::Upgraded) => (
            ReplaySession::Connected,
            ReplayAction::AcquireState,
        ),
        (ReplaySession::Connected, ReplayEvent::StateAcquired) => advance(state, 0, 0),
        (ReplaySession::Sending { recording, viz }, ReplayEvent::Sent) => (
            ReplaySession::Pacing { recording, viz },
            ReplayAction::Wait { millis: PACING_MILLIS },
        ),
        (ReplaySession::Sending { .. }, ReplayEvent::SendFailed) => (
            ReplaySession::Closed { completed: false },
            ReplayAction::Abort,
        ),
        (ReplaySession::Pacing { recording, viz }, ReplayEvent::DelayElapsed) => advance(
            state,
            recording,
            viz + 1,
        ),
        _ => (*session, ReplayAction::Ignore),
    };
    proof {
        match action {
            ReplayAction::Send { recording, viz } => {
                lemma_place_holds_viz(state.deep_view(), recording as nat, viz as nat);
            },
            _ => {},
        }
    }
    *session = next;
    action
}

/// What the server does once a connection's replay is over.
#[derive(Clone, Copy, Debug, PartialEq, Eq, Structural)]
pub enum ServerAction {
    /// Go on serving.
    KeepServing,
    /// Stop the process after this many milliseconds.
    ExitAfter { millis: u64 },
}

/// What the server does once a connection's replay has come to `session`:
/// it stops, [`EXIT_GRACE_MILLIS`] later, exactly when it is set to stop after
/// one replay and the replay was completed.
pub open spec fn server_action(exit_after_serve: bool, session: ReplaySessionV) -> ServerAction {
    if exit_after_serve && session == ReplaySessionV::Closed(true) {
        ServerAction::ExitAfter { millis: EXIT_GRACE_MILLIS }
    } else {
        ServerAction::KeepServing
    }
}

/// Decides what the server does after the connection's task has returned:
/// it stops, [`EXIT_GRACE_MILLIS`] later, exactly when it is set to stop after
/// one replay and this replay was completed.
pub fn ws_handler(config: &ReplayConfig, session: &ReplaySession) -> (action: ServerAction)
    ensures
        forall|recordings: Seq<RecordingV>|
            action == server_action(config.exit_after_serve, #[trigger] session.abs(recordings)),
        action == if config.exit_after_serve && *session == (ReplaySession::Closed {
            completed: true,
        }) {
            ServerAction::ExitAfter { millis: EXIT_GRACE_MILLIS }
        } else {
            ServerAction::KeepServing
        },
{
    match session {
        ReplaySession::Closed { completed } => {
            if config.exit_after_serve && *completed {
                ServerAction::ExitAfter { millis: EXIT_GRACE_MILLIS }
            } else {
                ServerAction::KeepServing
            }
        },
        _ => ServerAction::KeepServing,
    }
}

} // verus!
