//! The recordings that a server holds, and the order in which they are
//! replayed.

use vstd::prelude::*;
use crate::recording::{Recording, RecordingV};
use crate::viz::VizV;

verus! {

/// The recordings that a server holds, in the order in which they were loaded.
#[derive(Clone, Debug, PartialEq, Eq)]
pub struct WSBridgeState {
    pub recordings: Vec<Recording>,
}

/// The visualizations of the first `n` recordings, one recording after the
/// other, each in its own order.
pub open spec fn vizs_of_first(recordings: Seq<RecordingV>, n: nat) -> Seq<VizV>
    decreases n,
{
    if n == 0 || n > recordings.len() {
        Seq::empty()
    } else {
        vizs_of_first(recordings, (n - 1) as nat) + recordings[n - 1].vizs
    }
}

/// Every visualization of every recording, in replay order.
pub open spec fn all_vizs(recordings: Seq<RecordingV>) -> Seq<VizV> {
    vizs_of_first(recordings, recordings.len())
}

impl DeepView for WSBridgeState {
    type V = Seq<RecordingV>;

    open spec fn deep_view(&self) -> Seq<RecordingV> {
        self.recordings.deep_view()
    }
}

/// The value of a state, recording by recording and visualization by
/// visualization.
pub proof fn lemma_state_view(state: &WSBridgeState)
    ensures
        state.deep_view().len() == state.recordings.len(),
        forall|r: int|
            0 <= r < state.recordings.len() ==> #[trigger] state.deep_view()[r]
                == state.recordings[r].deep_view(),
        forall|r: int|
            0 <= r < state.recordings.len() ==> (#[trigger] state.deep_view()[r]).vizs.len()
                == state.recordings[r].vizs.len(),
        forall|r: int, v: int|
            0 <= r < state.recordings.len() && 0 <= v < state.recordings[r].vizs.len()
                ==> #[trigger] state.deep_view()[r].vizs[v] == state.recordings[r].vizs[v].deep_view(),
{
}

/// The visualizations of the first recordings are the same whatever
/// recording is added after them.
pub proof fn lemma_vizs_of_first_push(recordings: Seq<RecordingV>, added: RecordingV, n: nat)
    requires
        n <= recordings.len(),
    ensures
        vizs_of_first(recordings.push(added), n) == vizs_of_first(recordings, n),
    decreases n,
{
    if n > 0 {
        lemma_vizs_of_first_push(recordings, added, (n - 1) as nat);
    }
}

/// Replay order is store order: a recording that is added is replayed after
/// all that was held before, its visualizations in their own order.
pub proof fn lemma_all_vizs_push(recordings: Seq<RecordingV>, added: RecordingV)
    ensures
        all_vizs(recordings.push(added)) == all_vizs(recordings) + added.vizs,
        all_vizs(Seq::<RecordingV>::empty()) == Seq::<VizV>::empty(),
{
    lemma_vizs_of_first_push(recordings, added, recordings.len());
}

impl Default for WSBridgeState {
    fn default() -> (state: Self)
        ensures
            state.deep_view() == Seq::<RecordingV>::empty(),
    {
        let state = Self { recordings: Vec::new() };
        assert(state.recordings.deep_view() =~= Seq::empty());
        state
    }
}

impl WSBridgeState {
    /// A state that holds no recording.
    pub fn new() -> (state: Self)
        ensures
            state.deep_view() == Seq::<RecordingV>::empty(),
    {
        let state = Self { recordings: Vec::new() };
        assert(state.recordings.deep_view() =~= Seq::empty());
        state
    }

    /// Adds `recording` after the others; those already held stay as they
    /// are, and the new one is replayed after them.
    pub fn add_recording(&mut self, recording: Recording)
        ensures
            final(self).deep_view() == old(self).deep_view().push(recording.deep_view()),
            all_vizs(final(self).deep_view()) == all_vizs(old(self).deep_view())
                + recording.deep_view().vizs,
    {
        proof {
            lemma_all_vizs_push(old(self).deep_view(), recording.deep_view());
        }
        self.recordings.push(recording);
        assert(self.recordings.deep_view() =~= old(self).recordings.deep_view().push(
            recording.deep_view(),
        ));
    }

    /// The recordings, oldest first.
    pub fn get_recordings(&self) -> (recordings: &Vec<Recording>)
        ensures
            recordings == &self.recordings,
    {
        &self.recordings
    }
}

} // verus!
