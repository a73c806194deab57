//! The payloads of a visualization: scalar plots and spatial views.

use vstd::prelude::*;
use crate::scalar::Scalar;

verus! {

/// A scalar plot: sample pairs `(x, y)` in the order in which they are drawn.
#[derive(Clone, Debug, PartialEq, Eq)]
pub struct PlotScalarData {
    pub data_x: Vec<(Scalar, Scalar)>,
}

/// The mathematical value of a [`PlotScalarData`].
pub ghost struct PlotScalarDataV {
    pub data_x: Seq<(u64, u64)>,
}

impl DeepView for PlotScalarData {
    type V = PlotScalarDataV;

    open spec fn deep_view(&self) -> PlotScalarDataV {
        PlotScalarDataV { data_x: self.data_x.deep_view() }
    }
}

impl PlotScalarData {
    /// A plot of the given samples, in the given order.
    pub fn new(data_x: Vec<(Scalar, Scalar)>) -> (data: Self)
        ensures
            data.data_x == data_x,
            data.deep_view().data_x == data_x.deep_view(),
    {
        Self { data_x }
    }
}

/// One drawable primitive of a spatial view.
#[derive(Clone, Debug, PartialEq, Eq)]
pub enum ThreeDPrimative {
    /// A cloud of points `(x, y, z)`.
    Point(Vec<(Scalar, Scalar, Scalar)>),
}

/// The mathematical value of a [`ThreeDPrimative`].
pub ghost enum ThreeDPrimativeV {
    Point(Seq<(u64, u64, u64)>),
}

impl DeepView for ThreeDPrimative {
    type V = ThreeDPrimativeV;

    open spec fn deep_view(&self) -> ThreeDPrimativeV {
        match self {
            ThreeDPrimative::Point(points) => ThreeDPrimativeV::Point(points.deep_view()),
        }
    }
}

/// A spatial view: primitives, each with the time at which it is shown.
#[derive(Clone, Debug, PartialEq, Eq)]
pub struct ThreeDViewData {
    pub primatives: Vec<(Scalar, ThreeDPrimative)>,
}

/// The mathematical value of a [`ThreeDViewData`].
pub ghost struct ThreeDViewDataV {
    pub primatives: Seq<(u64, ThreeDPrimativeV)>,
}

impl DeepView for ThreeDViewData {
    type V = ThreeDViewDataV;

    open spec fn deep_view(&self) -> ThreeDViewDataV {
        ThreeDViewDataV { primatives: self.primatives.deep_view() }
    }
}

/// One payload of a visualization.
#[derive(Clone, Debug, PartialEq, Eq)]
pub enum Widget {
    PlotScalar(PlotScalarData),
    ThreeDView(ThreeDViewData),
}

/// The mathematical value of a [`Widget`].
pub ghost enum WidgetV {
    PlotScalar(PlotScalarDataV),
    ThreeDView(ThreeDViewDataV),
}

impl DeepView for Widget {
    type V = WidgetV;

    open spec fn deep_view(&self) -> WidgetV {
        match self {
            Widget::PlotScalar(data) => WidgetV::PlotScalar(data.deep_view()),
            Widget::ThreeDView(data) => WidgetV::ThreeDView(data.deep_view()),
        }
    }
}

} // verus!
