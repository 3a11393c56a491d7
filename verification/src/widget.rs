use vstd::prelude::*;

verus! {

/// What the rest of the library observes of a widget: who it is and the text it shows.
pub struct WidgetView {
    pub id: u64,
    pub label: Seq<char>,
}

/// A control of the hosting toolkit, reduced to its identity and its text label.
#[derive(Debug)]
pub struct Widget {
    id: u64,
    label: String,
}

impl View for Widget {
    type V = WidgetView;

    closed spec fn view(&self) -> WidgetView {
        WidgetView { id: self.id, label: self.label@ }
    }
}

impl Widget {
    /// A widget with the given identity that shows `label`.
    pub fn new(id: u64, label: String) -> (widget: Widget)
        ensures
            widget@ == (WidgetView { id, label: label@ }),
    {
        Widget { id, label }
    }

    /// The identity under which handlers are registered for this widget.
    pub fn id(&self) -> (id: u64)
        ensures
            id == self@.id,
    {
        self.id
    }

    /// The text the widget shows at present.
    pub fn label(&self) -> (label: &String)
        ensures
            label@ == self@.label,
    {
        &self.label
    }

    /// Replaces the text the widget shows; its identity stays.
    pub fn set_label(&mut self, label: String)
        ensures
            final(self)@ == (WidgetView { id: old(self)@.id, label: label@ }),
    {
        self.label = label;
    }
}

} // verus!
