//! What holds of every replay: order, completeness, pacing, the end of a
//! server that serves once, and the independence of connections.

use vstd::prelude::*;
use crate::recording::RecordingV;
use crate::state::all_vizs;
use crate::viz::VizV;
use crate::ws_handler::{
    replay_step,
    server_action,
    ServerAction,
    ReplayActionV,
    ReplayEvent,
    ReplaySessionV,
    EXIT_GRACE_MILLIS,
    PACING_MILLIS,
};

verus! {

/// The session after `events`, taken one by one from `session`, and the
/// actions that were asked for, in order.
pub open spec fn replay_run(session: ReplaySessionV, total: nat, events: Seq<ReplayEvent>) -> (
    ReplaySessionV,
    Seq<ReplayActionV>,
)
    decreases events.len(),
{
    if events.len() == 0 {
        (session, Seq::empty())
    } else {
        let before = replay_run(session, total, events.drop_last());
        let step = replay_step(before.0, total, events.last());
        (step.0, before.1.push(step.1))
    }
}

/// The places, in replay order, of the messages that `actions` send.
pub open spec fn sent_places(actions: Seq<ReplayActionV>) -> Seq<nat>
    decreases actions.len(),
{
    if actions.len() == 0 {
        Seq::empty()
    } else {
        let before = sent_places(actions.drop_last());
        match actions.last() {
            ReplayActionV::Send(k) => before.push(k),
            _ => before,
        }
    }
}

/// The visualizations that `actions` send to the viewer, in the order sent.
pub open spec fn sent_vizs(recordings: Seq<RecordingV>, actions: Seq<ReplayActionV>) -> Seq<VizV> {
    let places = sent_places(actions);
    Seq::new(places.len(), |i: int| all_vizs(recordings)[places[i] as int])
}

/// How many messages a session has handed out, where that can be read off it.
pub open spec fn handed_out(session: ReplaySessionV, total: nat) -> Option<nat> {
    match session {
        ReplaySessionV::Idle => Some(0),
        ReplaySessionV::Connected => Some(0),
        ReplaySessionV::Sending(k) => Some(k + 1),
        ReplaySessionV::Pacing(k) => Some(k + 1),
        ReplaySessionV::Closed(true) => Some(total),
        ReplaySessionV::Closed(false) => None,
    }
}

/// Whatever happens on a connection, the messages handed out are the first
/// places of the replay order, each once and in order, and the session knows
/// how many they are. A session that is closed as completed has handed out
/// all of them.
pub proof fn lemma_places_in_order(total: nat, events: Seq<ReplayEvent>)
    ensures
        ({
            let run = replay_run(ReplaySessionV::Idle, total, events);
            let places = sent_places(run.1);
            &&& places.len() <= total
            &&& forall|i: int| 0 <= i < places.len() ==> places[i] == i
            &&& handed_out(run.0, total) is Some ==> handed_out(run.0, total) == Some(places.len())
        }),
    decreases events.len(),
{
    if events.len() > 0 {
        lemma_places_in_order(total, events.drop_last());
        let before = replay_run(ReplaySessionV::Idle, total, events.drop_last());
        let step = replay_step(before.0, total, events.last());
        let actions = before.1.push(step.1);
        assert(actions.drop_last() =~= before.1);
        assert(actions.last() == step.1);
    }
}

/// Order and completeness of a replay: whatever happens on a connection, the
/// visualizations sent are, in order, the first ones of the recordings'
/// visualizations in store order; none is sent twice and none is skipped.
/// Once the session is closed as completed they are all of them.
pub proof fn lemma_replay_preserves_order(recordings: Seq<RecordingV>, events: Seq<ReplayEvent>)
    ensures
        ({
            let total = all_vizs(recordings).len();
            let run = replay_run(ReplaySessionV::Idle, total, events);
            let sent = sent_vizs(recordings, run.1);
            &&& sent.len() <= total
            &&& sent == all_vizs(recordings).take(sent.len() as int)
            &&& run.0 == ReplaySessionV::Closed(true) ==> sent == all_vizs(recordings)
        }),
{
    let total = all_vizs(recordings).len();
    lemma_places_in_order(total, events);
    let run = replay_run(ReplaySessionV::Idle, total, events);
    let sent = sent_vizs(recordings, run.1);
    assert(sent =~= all_vizs(recordings).take(sent.len() as int));
    if run.0 == ReplaySessionV::Closed(true) {
        assert(all_vizs(recordings).take(total as int) =~= all_vizs(recordings));
    }
}

/// What happens on the connection of a viewer that stays connected, up to
/// the end of round `n`: the handshake, the access to the recordings, and
/// then `n` times a message sent and its delay over.
pub open spec fn steady_events(n: nat) -> Seq<ReplayEvent>
    decreases n,
{
    if n == 0 {
        seq![ReplayEvent::Upgraded, ReplayEvent::StateAcquired]
    } else {
        steady_events((n - 1) as nat).push(ReplayEvent::Sent).push(ReplayEvent::DelayElapsed)
    }
}

/// A viewer that stays connected is handed message `n` after `n` rounds, and
/// the replay is completed after as many rounds as there are messages.
pub proof fn lemma_steady_viewer_progress(total: nat, n: nat)
    requires
        n <= total,
    ensures
        replay_run(ReplaySessionV::Idle, total, steady_events(n)).0 == if n < total {
            ReplaySessionV::Sending(n)
        } else {
            ReplaySessionV::Closed(true)
        },
    decreases n,
{
    let idle = ReplaySessionV::Idle;
    if n == 0 {
        let events = steady_events(0);
        assert(events.drop_last() =~= seq![ReplayEvent::Upgraded]);
        assert(events.drop_last().drop_last() =~= Seq::<ReplayEvent>::empty());
        assert(replay_run(idle, total, events.drop_last().drop_last()).0 == idle);
        assert(replay_run(idle, total, events.drop_last()).0 == ReplaySessionV::Connected);
    } else {
        lemma_steady_viewer_progress(total, (n - 1) as nat);
        let before = steady_events((n - 1) as nat);
        let events = steady_events(n);
        assert(events.drop_last() =~= before.push(ReplayEvent::Sent));
        assert(events.drop_last().drop_last() =~= before);
        assert(replay_run(idle, total, events.drop_last()).0 == ReplaySessionV::Pacing(
            (n - 1) as nat,
        ));
    }
}

/// A viewer that stays connected receives every visualization of every
/// recording, each once, in store order.
pub proof fn lemma_steady_viewer_receives_all(recordings: Seq<RecordingV>)
    ensures
        ({
            let total = all_vizs(recordings).len();
            let run = replay_run(ReplaySessionV::Idle, total, steady_events(total));
            &&& run.0 == ReplaySessionV::Closed(true)
            &&& sent_vizs(recordings, run.1) == all_vizs(recordings)
        }),
{
    let total = all_vizs(recordings).len();
    lemma_steady_viewer_progress(total, total);
    lemma_replay_preserves_order(recordings, steady_events(total));
}

/// Serving once: the server stops because of a connection only where it is
/// set to stop after one replay, and only once that connection was sent
/// every visualization; until then it goes on serving.
pub proof fn lemma_exit_follows_complete_replay(
    recordings: Seq<RecordingV>,
    events: Seq<ReplayEvent>,
    exit_after_serve: bool,
)
    ensures
        ({
            let total = all_vizs(recordings).len();
            let run = replay_run(ReplaySessionV::Idle, total, events);
            &&& server_action(exit_after_serve, run.0) != ServerAction::KeepServing ==> {
                &&& exit_after_serve
                &&& sent_vizs(recordings, run.1) == all_vizs(recordings)
            }
            &&& exit_after_serve && run.0 == ReplaySessionV::Closed(true) ==> server_action(
                exit_after_serve,
                run.0,
            ) == (ServerAction::ExitAfter { millis: EXIT_GRACE_MILLIS })
        }),
{
    lemma_replay_preserves_order(recordings, events);
}

/// Pacing: a message other than the first is handed out only when the delay
/// after the message before it is over, and that delay is asked for, with
/// [`PACING_MILLIS`], whenever a message was sent.
pub proof fn lemma_send_follows_delay(session: ReplaySessionV, total: nat, event: ReplayEvent)
    ensures
        ({
            let step = replay_step(session, total, event);
            &&& step.1 matches ReplayActionV::Send(k) ==> {
                ||| k == 0 && session == ReplaySessionV::Connected && event
                    == ReplayEvent::StateAcquired
                ||| k > 0 && session == ReplaySessionV::Pacing((k - 1) as nat) && event
                    == ReplayEvent::DelayElapsed
            }
            &&& (session is Sending && event == ReplayEvent::Sent) ==> step.1
                == ReplayActionV::Wait(PACING_MILLIS)
            &&& (step.0 is Pacing && !(session is Pacing)) ==> step.1 == ReplayActionV::Wait(
                PACING_MILLIS,
            )
        }),
{
}

/// Whether a message was sent since the last pacing delay was asked for.
pub open spec fn awaits_delay(actions: Seq<ReplayActionV>) -> bool
    decreases actions.len(),
{
    if actions.len() == 0 {
        false
    } else {
        match actions.last() {
            ReplayActionV::Send(_) => true,
            ReplayActionV::Wait(millis) => if millis == PACING_MILLIS {
                false
            } else {
                awaits_delay(actions.drop_last())
            },
            _ => awaits_delay(actions.drop_last()),
        }
    }
}

/// Whether the actions are paced: no message is sent before a delay of
/// [`PACING_MILLIS`] was asked for since the message before it.
pub open spec fn paced(actions: Seq<ReplayActionV>) -> bool
    decreases actions.len(),
{
    if actions.len() == 0 {
        true
    } else {
        &&& paced(actions.drop_last())
        &&& actions.last() is Send ==> !awaits_delay(actions.drop_last())
    }
}

/// Pacing of a whole replay: whatever happens on a connection, between two
/// messages sent on it a delay of [`PACING_MILLIS`] is asked for.
pub proof fn lemma_replay_is_paced(total: nat, events: Seq<ReplayEvent>)
    ensures
        ({
            let run = replay_run(ReplaySessionV::Idle, total, events);
            &&& paced(run.1)
            &&& awaits_delay(run.1) ==> run.0 is Sending || run.0 == ReplaySessionV::Closed(false)
        }),
    decreases events.len(),
{
    if events.len() > 0 {
        lemma_replay_is_paced(total, events.drop_last());
        let before = replay_run(ReplaySessionV::Idle, total, events.drop_last());
        let step = replay_step(before.0, total, events.last());
        let actions = before.1.push(step.1);
        assert(actions.drop_last() =~= before.1);
        assert(actions.last() == step.1);
    }
}

/// The events of `events` that happened on connection `first` (`true`) or
/// on the other one (`false`), in order.
pub open spec fn events_on(events: Seq<(bool, ReplayEvent)>, first: bool) -> Seq<ReplayEvent>
    decreases events.len(),
{
    if events.len() == 0 {
        Seq::empty()
    } else {
        let before = events_on(events.drop_last(), first);
        if events.last().0 == first {
            before.push(events.last().1)
        } else {
            before
        }
    }
}

/// Two sessions on the same recordings, stepped as the events of their two
/// connections arrive: each event steps the session of its own connection.
pub open spec fn replay_pair_run(
    sessions: (ReplaySessionV, ReplaySessionV),
    total: nat,
    events: Seq<(bool, ReplayEvent)>,
) -> ((ReplaySessionV, Seq<ReplayActionV>), (ReplaySessionV, Seq<ReplayActionV>))
    decreases events.len(),
{
    if events.len() == 0 {
        ((sessions.0, Seq::empty()), (sessions.1, Seq::empty()))
    } else {
        let before = replay_pair_run(sessions, total, events.drop_last());
        if events.last().0 {
            let step = replay_step(before.0.0, total, events.last().1);
            ((step.0, before.0.1.push(step.1)), before.1)
        } else {
            let step = replay_step(before.1.0, total, events.last().1);
            (before.0, (step.0, before.1.1.push(step.1)))
        }
    }
}

/// Isolation: of two connections served side by side, each gets the session
/// and the actions that it would get alone; what happens on one, a failed
/// send included, changes nothing for the other.
pub proof fn lemma_connections_are_isolated(
    sessions: (ReplaySessionV, ReplaySessionV),
    total: nat,
    events: Seq<(bool, ReplayEvent)>,
)
    ensures
        replay_pair_run(sessions, total, events).0 == replay_run(
            sessions.0,
            total,
            events_on(events, true),
        ),
        replay_pair_run(sessions, total, events).1 == replay_run(
            sessions.1,
            total,
            events_on(events, false),
        ),
    decreases events.len(),
{
    if events.len() > 0 {
        lemma_connections_are_isolated(sessions, total, events.drop_last());
        let mine = events_on(events.drop_last(), events.last().0);
        let now = mine.push(events.last().1);
        assert(now.drop_last() =~= mine);
        assert(now.last() == events.last().1);
    }
}

} // verus!
