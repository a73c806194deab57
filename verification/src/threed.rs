//! Collects the point clouds of a spatial view.

use vstd::prelude::*;
use crate::duplicate::duplicate_timeline;
use crate::recording::{Recording, RecordingV};
use crate::scalar::Scalar;
use crate::viz::{Viz, VizV};
use crate::widgets::{ThreeDPrimative, ThreeDPrimativeV, ThreeDViewData, ThreeDViewDataV, Widget, WidgetV};

verus! {

/// Collects the point clouds of a spatial view, each with its time.
pub struct ThreeDView {
    name: String,
    primatives: Vec<(Scalar, ThreeDPrimative)>,
}

impl ThreeDView {
    /// The name under which the view is logged.
    pub closed spec fn name(&self) -> Seq<char> {
        self.name@
    }

    /// The point clouds collected so far, each with its time.
    pub closed spec fn timeline(&self) -> Seq<(u64, ThreeDPrimativeV)> {
        self.primatives.deep_view()
    }

    /// The visualization that the view stands for: one spatial view of its
    /// point clouds, under its name.
    pub open spec fn viz(&self) -> VizV {
        VizV {
            name: self.name(),
            source: None,
            widgets: seq![WidgetV::ThreeDView(ThreeDViewDataV { primatives: self.timeline() })],
            range: None,
        }
    }

    /// A view without point clouds.
    pub fn new(name: &str) -> (view: Self)
        ensures
            view.name() == name@,
            view.timeline() == Seq::<(u64, ThreeDPrimativeV)>::empty(),
    {
        let view = Self { name: name.to_owned(), primatives: Vec::new() };
        assert(view.primatives.deep_view() =~= Seq::empty());
        view
    }

    /// Adds the cloud of `points`, shown at `time`, after the others.
    pub fn add_points(&mut self, points: Vec<(Scalar, Scalar, Scalar)>, time: Scalar)
        ensures
            final(self).name() == old(self).name(),
            final(self).timeline() == old(self).timeline().push(
                (time.bits, ThreeDPrimativeV::Point(points.deep_view())),
            ),
    {
        self.primatives.push((time, ThreeDPrimative::Point(points)));
        assert(self.primatives.deep_view() =~= old(self).primatives.deep_view().push(
            (time.bits, ThreeDPrimativeV::Point(points.deep_view())),
        ));
    }

    /// Adds the view's visualization to `recording`, after the others.
    pub fn log(&self, recording: &mut Recording)
        ensures
            final(recording).deep_view() == (RecordingV {
                vizs: old(recording).deep_view().vizs.push(self.viz()),
                ..old(recording).deep_view()
            }),
    {
        recording.add_viz(self.as_viz());
    }

    /// The point clouds as a spatial view.
    pub fn as_view_data(&self) -> (data: ThreeDViewData)
        ensures
            data.deep_view().primatives == self.timeline(),
    {
        ThreeDViewData { primatives: duplicate_timeline(&self.primatives) }
    }

    /// The view's visualization.
    pub fn as_viz(&self) -> (viz: Viz)
        ensures
            viz.deep_view() == self.viz(),
    {
        let data = self.as_view_data();
        let widget = Widget::ThreeDView(data);
        let viz = Viz::new(self.name.clone()).with_widget(widget);
        assert(viz.deep_view().widgets =~= self.viz().widgets);
        viz
    }
}

} // verus!
