//! Which values hold finite numbers only.

use vstd::prelude::*;
use crate::recording::{Recording, RecordingV};
use crate::scalar::{bits_finite, Scalar};
use crate::viz::{Viz, VizV};
use crate::widgets::{
    PlotScalarData,
    PlotScalarDataV,
    ThreeDPrimative,
    ThreeDPrimativeV,
    ThreeDViewData,
    ThreeDViewDataV,
    Widget,
    WidgetV,
};

verus! {

/// Whether every item of a sequence meets `pred`.
pub open spec fn all_meet<T>(items: Seq<T>, pred: spec_fn(T) -> bool) -> bool {
    forall|i: int| 0 <= i < items.len() ==> #[trigger] pred(items[i])
}

/// Whether both numbers of a pair are finite.
pub open spec fn pair_finite(pair: (u64, u64)) -> bool {
    bits_finite(pair.0) && bits_finite(pair.1)
}

/// Whether the three numbers of a triple are finite.
pub open spec fn triple_finite(triple: (u64, u64, u64)) -> bool {
    bits_finite(triple.0) && bits_finite(triple.1) && bits_finite(triple.2)
}

/// Whether every sample of a scalar plot is finite.
pub open spec fn plot_finite(data: PlotScalarDataV) -> bool {
    all_meet(data.data_x, |pair: (u64, u64)| pair_finite(pair))
}

/// Whether every point of a primitive is finite.
pub open spec fn primative_finite(primative: ThreeDPrimativeV) -> bool {
    match primative {
        ThreeDPrimativeV::Point(points) => all_meet(
            points,
            |triple: (u64, u64, u64)| triple_finite(triple),
        ),
    }
}

/// Whether a primitive and its time are finite.
pub open spec fn timed_finite(timed: (u64, ThreeDPrimativeV)) -> bool {
    bits_finite(timed.0) && primative_finite(timed.1)
}

/// Whether every primitive of a spatial view is finite, with its time.
pub open spec fn view_finite(data: ThreeDViewDataV) -> bool {
    all_meet(data.primatives, |timed: (u64, ThreeDPrimativeV)| timed_finite(timed))
}

/// Whether every number of a widget is finite.
pub open spec fn widget_finite(widget: WidgetV) -> bool {
    match widget {
        WidgetV::PlotScalar(data) => plot_finite(data),
        WidgetV::ThreeDView(data) => view_finite(data),
    }
}

/// Whether every number of a visualization is finite: those of its widgets
/// and, where it has a range, the two bounds.
pub open spec fn viz_finite(viz: VizV) -> bool {
    &&& all_meet(viz.widgets, |widget: WidgetV| widget_finite(widget))
    &&& viz.range is Some ==> pair_finite(viz.range->Some_0)
}

/// Whether every number of a recording is finite.
pub open spec fn recording_finite(recording: RecordingV) -> bool {
    all_meet(recording.vizs, |viz: VizV| viz_finite(viz))
}

fn all_items_meet<T: DeepView, F: Fn(&T) -> bool>(
    items: &Vec<T>,
    check: F,
    Ghost(pred): Ghost<spec_fn(T::V) -> bool>,
) -> (r: bool)
    requires
        forall|item: &T| #[trigger] check.requires((item,)),
        forall|item: &T, met: bool| #[trigger]
            check.ensures((item,), met) ==> met == pred(item.deep_view()),
    ensures
        r == all_meet(items.deep_view(), pred),
{
    let mut i: usize = 0;
    while i < items.len()
        invariant
            i <= items.len(),
            forall|item: &T| #[trigger] check.requires((item,)),
            forall|item: &T, met: bool| #[trigger]
                check.ensures((item,), met) ==> met == pred(item.deep_view()),
            forall|j: int| 0 <= j < i ==> #[trigger] pred(items.deep_view()[j]),
        decreases items.len() - i,
    {
        if !check(&items[i]) {
            assert(!pred(items.deep_view()[i as int]));
            return false;
        }
        i = i + 1;
    }
    true
}

fn pair_is_finite(pair: &(Scalar, Scalar)) -> (r: bool)
    ensures
        r == pair_finite(pair.deep_view()),
{
    pair.0.is_finite() && pair.1.is_finite()
}

fn triple_is_finite(triple: &(Scalar, Scalar, Scalar)) -> (r: bool)
    ensures
        r == triple_finite(triple.deep_view()),
{
    triple.0.is_finite() && triple.1.is_finite() && triple.2.is_finite()
}

fn timed_is_finite(timed: &(Scalar, ThreeDPrimative)) -> (r: bool)
    ensures
        r == timed_finite(timed.deep_view()),
{
    timed.0.is_finite() && timed.1.is_finite()
}

fn widget_is_finite(widget: &Widget) -> (r: bool)
    ensures
        r == widget_finite(widget.deep_view()),
{
    widget.is_finite()
}

fn viz_is_finite(viz: &Viz) -> (r: bool)
    ensures
        r == viz_finite(viz.deep_view()),
{
    viz.is_finite()
}

impl PlotScalarData {
    /// Whether every sample is finite.
    pub fn is_finite(&self) -> (r: bool)
        ensures
            r == plot_finite(self.deep_view()),
    {
        all_items_meet(&self.data_x, pair_is_finite, Ghost(|pair: (u64, u64)| pair_finite(pair)))
    }
}

impl ThreeDPrimative {
    /// Whether every point is finite.
    pub fn is_finite(&self) -> (r: bool)
        ensures
            r == primative_finite(self.deep_view()),
    {
        match self {
            ThreeDPrimative::Point(points) => all_items_meet(
                points,
                triple_is_finite,
                Ghost(|triple: (u64, u64, u64)| triple_finite(triple)),
            ),
        }
    }
}

impl ThreeDViewData {
    /// Whether every primitive is finite, with its time.
    pub fn is_finite(&self) -> (r: bool)
        ensures
            r == view_finite(self.deep_view()),
    {
        all_items_meet(
            &self.primatives,
            timed_is_finite,
            Ghost(|timed: (u64, ThreeDPrimativeV)| timed_finite(timed)),
        )
    }
}

impl Widget {
    /// Whether every number of the widget is finite.
    pub fn is_finite(&self) -> (r: bool)
        ensures
            r == widget_finite(self.deep_view()),
    {
        match self {
            Widget::PlotScalar(data) => data.is_finite(),
            Widget::ThreeDView(data) => data.is_finite(),
        }
    }
}

impl Viz {
    /// Whether every number of the visualization is finite.
    pub fn is_finite(&self) -> (r: bool)
        ensures
            r == viz_finite(self.deep_view()),
    {
        let range_finite = match &self.range {
            Some(pair) => pair_is_finite(pair),
            None => true,
        };
        range_finite && all_items_meet(
            &self.widgets,
            widget_is_finite,
            Ghost(|widget: WidgetV| widget_finite(widget)),
        )
    }
}

impl Recording {
    /// Whether every number of the recording is finite. Only such a
    /// recording can be written as JSON text, which has no infinities.
    pub fn is_finite(&self) -> (r: bool)
        ensures
            r == recording_finite(self.deep_view()),
    {
        all_items_meet(&self.vizs, viz_is_finite, Ghost(|viz: VizV| viz_finite(viz)))
    }
}

} // verus!
