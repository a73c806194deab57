//! A capture session: an append-only list of visualizations.

use vstd::prelude::*;
use crate::viz::{Viz, VizV};

verus! {

/// One capture session: its visualizations in the order in which they were
/// added.
#[derive(Clone, Debug, PartialEq, Eq)]
pub struct Recording {
    pub name: String,
    pub session_id: String,
    pub vizs: Vec<Viz>,
}

/// The mathematical value of a [`Recording`].
pub ghost struct RecordingV {
    pub name: Seq<char>,
    pub session_id: Seq<char>,
    pub vizs: Seq<VizV>,
}

impl DeepView for Recording {
    type V = RecordingV;

    open spec fn deep_view(&self) -> RecordingV {
        RecordingV {
            name: self.name@,
            session_id: self.session_id@,
            vizs: self.vizs.deep_view(),
        }
    }
}

impl Recording {
    /// An empty recording with the given name and session identifier.
    pub fn new(name: String, session_id: String) -> (recording: Self)
        ensures
            recording.deep_view() == (RecordingV {
                name: name@,
                session_id: session_id@,
                vizs: Seq::empty(),
            }),
    {
        let recording = Self { name, session_id, vizs: Vec::new() };
        assert(recording.vizs.deep_view() =~= Seq::empty());
        recording
    }

    /// Adds `viz` after the other visualizations; nothing else changes.
    pub fn add_viz(&mut self, viz: Viz)
        ensures
            final(self).deep_view() == (RecordingV {
                vizs: old(self).deep_view().vizs.push(viz.deep_view()),
                ..old(self).deep_view()
            }),
    {
        self.vizs.push(viz);
        assert(self.vizs.deep_view() =~= old(self).vizs.deep_view().push(viz.deep_view()));
    }

    /// The visualizations, oldest first.
    pub fn get_vizs(&self) -> (vizs: &Vec<Viz>)
        ensures
            vizs == &self.vizs,
    {
        &self.vizs
    }
}

} // verus!
