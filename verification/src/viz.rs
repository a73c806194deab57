//! A named visualization and its widgets.

use vstd::prelude::*;
use crate::scalar::Scalar;
use crate::widgets::{Widget, WidgetV};

verus! {

/// One named visualization: its widgets in the order in which they were added.
#[derive(Clone, Debug, PartialEq, Eq)]
pub struct Viz {
    pub name: String,
    pub source: Option<String>,
    pub widgets: Vec<Widget>,
    pub range: Option<(Scalar, Scalar)>,
}

/// The mathematical value of a [`Viz`].
pub ghost struct VizV {
    pub name: Seq<char>,
    pub source: Option<Seq<char>>,
    pub widgets: Seq<WidgetV>,
    pub range: Option<(u64, u64)>,
}

impl DeepView for Viz {
    type V = VizV;

    open spec fn deep_view(&self) -> VizV {
        VizV {
            name: self.name@,
            source: self.source.deep_view(),
            widgets: self.widgets.deep_view(),
            range: self.range.deep_view(),
        }
    }
}

impl Viz {
    /// A visualization with the given name, no source, no widgets and no range.
    pub fn new(name: String) -> (viz: Self)
        ensures
            viz.deep_view() == (VizV {
                name: name@,
                source: None,
                widgets: Seq::empty(),
                range: None,
            }),
    {
        let viz = Self { name, source: None, widgets: Vec::new(), range: None };
        assert(viz.widgets.deep_view() =~= Seq::empty());
        viz
    }

    /// The same visualization with `widget` added after its other widgets.
    pub fn with_widget(self, widget: Widget) -> (viz: Self)
        ensures
            viz.deep_view() == (VizV {
                widgets: self.deep_view().widgets.push(widget.deep_view()),
                ..self.deep_view()
            }),
    {
        let mut viz = self;
        viz.add_widget(widget);
        viz
    }

    /// Adds `widget` after the other widgets; nothing else changes.
    pub fn add_widget(&mut self, widget: Widget)
        ensures
            final(self).deep_view() == (VizV {
                widgets: old(self).deep_view().widgets.push(widget.deep_view()),
                ..old(self).deep_view()
            }),
    {
        self.widgets.push(widget);
        assert(self.widgets.deep_view() =~= old(self).widgets.deep_view().push(
            widget.deep_view(),
        ));
    }

    /// Sets the source; nothing else changes.
    pub fn set_source(&mut self, source: String)
        ensures
            final(self).deep_view() == (VizV { source: Some(source@), ..old(self).deep_view() }),
    {
        self.source = Some(source);
    }

    /// Sets the display range; nothing else changes.
    pub fn set_range(&mut self, range: (Scalar, Scalar))
        ensures
            final(self).deep_view() == (VizV {
                range: Some((range.0.bits, range.1.bits)),
                ..old(self).deep_view()
            }),
    {
        self.range = Some(range);
    }

    /// The name.
    pub fn get_name(&self) -> (name: &str)
        ensures
            name@ == self.name@,
    {
        self.name.as_str()
    }
}

} // verus!
