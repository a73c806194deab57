//! Copies of the data model's values, and the snapshot of a state.

use vstd::prelude::*;
use crate::recording::Recording;
use crate::scalar::Scalar;
use crate::state::WSBridgeState;
use crate::viz::Viz;
use crate::widgets::{PlotScalarData, ThreeDPrimative, ThreeDViewData, Widget};

verus! {

/// A vector of copies of the items, in the same order.
fn duplicate_items<T: DeepView, F: Fn(&T) -> T>(items: &Vec<T>, duplicate: F) -> (copy:
    Vec<T>)
    requires
        forall|item: &T| #[trigger] duplicate.requires((item,)),
        forall|item: &T, copy: T| #[trigger]
            duplicate.ensures((item,), copy) ==> copy.deep_view() == item.deep_view(),
    ensures
        copy.deep_view() == items.deep_view(),
{
    let mut copy: Vec<T> = Vec::new();
    let mut i: usize = 0;
    while i < items.len()
        invariant
            i <= items.len(),
            copy.len() == i,
            forall|item: &T| #[trigger] duplicate.requires((item,)),
            forall|item: &T, copy: T| #[trigger]
                duplicate.ensures((item,), copy) ==> copy.deep_view() == item.deep_view(),
            forall|j: int| 0 <= j < i ==> (#[trigger] copy[j]).deep_view() == items[j].deep_view(),
        decreases items.len() - i,
    {
        let item = duplicate(&items[i]);
        copy.push(item);
        i = i + 1;
    }
    assert(copy.deep_view() =~= items.deep_view());
    copy
}

fn duplicate_pair(pair: &(Scalar, Scalar)) -> (copy: (Scalar, Scalar))
    ensures
        copy.deep_view() == pair.deep_view(),
{
    (pair.0, pair.1)
}

fn duplicate_triple(triple: &(Scalar, Scalar, Scalar)) -> (copy: (Scalar, Scalar, Scalar))
    ensures
        copy.deep_view() == triple.deep_view(),
{
    (triple.0, triple.1, triple.2)
}

fn duplicate_timed(timed: &(Scalar, ThreeDPrimative)) -> (copy: (Scalar, ThreeDPrimative))
    ensures
        copy.deep_view() == timed.deep_view(),
{
    (timed.0, timed.1.duplicate())
}

/// A copy of the primitives with their times, in the same order.
pub(crate) fn duplicate_timeline(timeline: &Vec<(Scalar, ThreeDPrimative)>) -> (copy: Vec<
    (Scalar, ThreeDPrimative),
>)
    ensures
        copy.deep_view() == timeline.deep_view(),
{
    duplicate_items(timeline, duplicate_timed)
}

fn duplicate_widget(widget: &Widget) -> (copy: Widget)
    ensures
        copy.deep_view() == widget.deep_view(),
{
    widget.duplicate()
}

fn duplicate_viz(viz: &Viz) -> (copy: Viz)
    ensures
        copy.deep_view() == viz.deep_view(),
{
    viz.duplicate()
}

fn duplicate_recording(recording: &Recording) -> (copy: Recording)
    ensures
        copy.deep_view() == recording.deep_view(),
{
    recording.duplicate()
}

impl PlotScalarData {
    /// A copy with the same samples.
    pub fn duplicate(&self) -> (copy: Self)
        ensures
            copy.deep_view() == self.deep_view(),
    {
        PlotScalarData { data_x: duplicate_items(&self.data_x, duplicate_pair) }
    }
}

impl ThreeDPrimative {
    /// A copy with the same points.
    pub fn duplicate(&self) -> (copy: Self)
        ensures
            copy.deep_view() == self.deep_view(),
    {
        match self {
            ThreeDPrimative::Point(points) => ThreeDPrimative::Point(
                duplicate_items(points, duplicate_triple),
            ),
        }
    }
}

impl ThreeDViewData {
    /// A copy with the same primitives at the same times.
    pub fn duplicate(&self) -> (copy: Self)
        ensures
            copy.deep_view() == self.deep_view(),
    {
        ThreeDViewData { primatives: duplicate_timeline(&self.primatives) }
    }
}

impl Widget {
    /// A copy of the same kind with the same payload.
    pub fn duplicate(&self) -> (copy: Self)
        ensures
            copy.deep_view() == self.deep_view(),
    {
        match self {
            Widget::PlotScalar(data) => Widget::PlotScalar(data.duplicate()),
            Widget::ThreeDView(data) => Widget::ThreeDView(data.duplicate()),
        }
    }
}

impl Viz {
    /// A copy with the same name, source, widgets and range.
    pub fn duplicate(&self) -> (copy: Self)
        ensures
            copy.deep_view() == self.deep_view(),
    {
        let source = match &self.source {
            Some(text) => Some(text.clone()),
            None => None,
        };
        Viz {
            name: self.name.clone(),
            source,
            widgets: duplicate_items(&self.widgets, duplicate_widget),
            range: self.range,
        }
    }
}

impl Recording {
    /// A copy with the same name, identifier and visualizations.
    pub fn duplicate(&self) -> (copy: Self)
        ensures
            copy.deep_view() == self.deep_view(),
    {
        Recording {
            name: self.name.clone(),
            session_id: self.session_id.clone(),
            vizs: duplicate_items(&self.vizs, duplicate_viz),
        }
    }
}

impl WSBridgeState {
    /// A copy of the recordings as they are now, in order; what is added to
    /// the state later does not show in it.
    pub fn snapshot(&self) -> (recordings: Vec<Recording>)
        ensures
            recordings.deep_view() == self.deep_view(),
    {
        duplicate_items(&self.recordings, duplicate_recording)
    }
}

} // verus!
