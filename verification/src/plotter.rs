//! Collects the points of a scalar plot.

use vstd::prelude::*;
use crate::recording::{Recording, RecordingV};
use crate::scalar::Scalar;
use crate::viz::{Viz, VizV};
use crate::widgets::{PlotScalarData, PlotScalarDataV, Widget, WidgetV};

verus! {

/// Collects the points of a scalar plot, coordinate by coordinate.
pub struct Plotter {
    pub name: String,
    pub points_x: Vec<Scalar>,
    pub points_y: Vec<Scalar>,
}

/// The pairs of two sequences' items at the same index, as far as the
/// shorter one reaches.
pub open spec fn zipped(xs: Seq<u64>, ys: Seq<u64>) -> Seq<(u64, u64)> {
    Seq::new(
        if xs.len() <= ys.len() {
            xs.len()
        } else {
            ys.len()
        },
        |i: int| (xs[i], ys[i]),
    )
}

impl Plotter {
    /// The samples collected so far.
    pub open spec fn samples(&self) -> Seq<(u64, u64)> {
        zipped(self.points_x.deep_view(), self.points_y.deep_view())
    }

    /// The visualization that the plotter stands for: one scalar plot of its
    /// samples, under its name.
    pub open spec fn viz(&self) -> VizV {
        VizV {
            name: self.name@,
            source: None,
            widgets: seq![WidgetV::PlotScalar(PlotScalarDataV { data_x: self.samples() })],
            range: None,
        }
    }

    /// A plotter without points.
    pub fn new(name: &str) -> (plotter: Self)
        ensures
            plotter.name@ == name@,
            plotter.points_x@.len() == 0,
            plotter.points_y@.len() == 0,
    {
        Self { name: name.to_owned(), points_x: Vec::new(), points_y: Vec::new() }
    }

    /// Adds the point `(x, y)` after the others.
    pub fn add_point(&mut self, x: Scalar, y: Scalar)
        ensures
            final(self).name == old(self).name,
            final(self).points_x@ == old(self).points_x@.push(x),
            final(self).points_y@ == old(self).points_y@.push(y),
    {
        self.points_x.push(x);
        self.points_y.push(y);
    }

    /// Adds the plotter's visualization to `recording`, after the others.
    pub fn log(&self, recording: &mut Recording)
        ensures
            final(recording).deep_view() == (RecordingV {
                vizs: old(recording).deep_view().vizs.push(self.viz()),
                ..old(recording).deep_view()
            }),
    {
        recording.add_viz(self.as_viz());
    }

    /// The samples as a scalar plot.
    pub fn as_scalar_data(&self) -> (data: PlotScalarData)
        ensures
            data.deep_view().data_x == self.samples(),
    {
        let mut pairs: Vec<(Scalar, Scalar)> = Vec::new();
        let mut i: usize = 0;
        while i < self.points_x.len() && i < self.points_y.len()
            invariant
                i <= self.points_x.len(),
                i <= self.points_y.len(),
                pairs.len() == i,
                forall|j: int|
                    0 <= j < i ==> #[trigger] pairs[j] == (self.points_x[j], self.points_y[j]),
            decreases self.points_x.len() - i,
        {
            pairs.push((self.points_x[i], self.points_y[i]));
            i = i + 1;
        }
        assert(pairs.deep_view() =~= self.samples());
        PlotScalarData::new(pairs)
    }

    /// The plotter's visualization.
    pub fn as_viz(&self) -> (viz: Viz)
        ensures
            viz.deep_view() == self.viz(),
    {
        let data = self.as_scalar_data();
        let widget = Widget::PlotScalar(data);
        let viz = Viz::new(self.name.clone()).with_widget(widget);
        assert(viz.deep_view().widgets =~= self.viz().widgets);
        viz
    }
}

} // verus!
