use vstd::prelude::*;
use vstd::string::StringExecFns;
use crate::widget::{Widget, WidgetView};

verus! {

/// The failure of one handler, with the message it gave for the hosting loop.
#[derive(Debug, PartialEq, Eq)]
pub struct HandlerFault {
    pub message: String,
}

impl View for HandlerFault {
    type V = Seq<char>;

    open spec fn view(&self) -> Seq<char> {
        self.message@
    }
}

impl Clone for HandlerFault {
    fn clone(&self) -> (copy: HandlerFault)
        ensures
            copy == *self,
    {
        HandlerFault { message: self.message.clone() }
    }
}

/// A unit of behaviour attached to an event of a widget.
///
/// A handler acts on the widget it is handed and on nothing else: it presents no
/// dialog and waits for nobody. What it does is a function of the widget as it
/// finds it: the label it leaves, and whether it ends in a fault. A handler that
/// faults may still have changed the label; nothing is rolled back.
pub trait Handler {
    /// The label the widget shows once the handler has run on `widget`.
    spec fn label_after(&self, widget: WidgetView) -> Seq<char>;

    /// The message of the fault the handler ends in when run on `widget`, if it faults.
    spec fn fault_on(&self, widget: WidgetView) -> Option<Seq<char>>;

    /// Runs the handler on `widget`.
    fn run(&self, widget: &mut Widget) -> (result: Result<(), HandlerFault>)
        ensures
            final(widget)@ == (WidgetView {
                id: old(widget)@.id,
                label: self.label_after(old(widget)@),
            }),
            match result {
                Ok(_) => self.fault_on(old(widget)@) is None,
                Err(fault) => self.fault_on(old(widget)@) == Some(fault@),
            },
    ;
}

/// The stock handlers: those that write the label, and one that fails.
#[derive(Debug, PartialEq, Eq)]
pub enum LabelHandler {
    /// Replaces the label by the given text, whatever it was.
    Replace(String),
    /// Puts the given text behind the label as it stands.
    Append(String),
    /// Leaves the label alone and ends in the given fault.
    Fail(HandlerFault),
}

impl Clone for LabelHandler {
    fn clone(&self) -> (copy: LabelHandler)
        ensures
            copy == *self,
    {
        match self {
            LabelHandler::Replace(text) => LabelHandler::Replace(text.clone()),
            LabelHandler::Append(text) => LabelHandler::Append(text.clone()),
            LabelHandler::Fail(fault) => LabelHandler::Fail(fault.clone()),
        }
    }
}

impl Handler for LabelHandler {
    open spec fn label_after(&self, widget: WidgetView) -> Seq<char> {
        match self {
            LabelHandler::Replace(text) => text@,
            LabelHandler::Append(text) => widget.label + text@,
            LabelHandler::Fail(_) => widget.label,
        }
    }

    open spec fn fault_on(&self, widget: WidgetView) -> Option<Seq<char>> {
        match self {
            LabelHandler::Fail(fault) => Some(fault@),
            _ => None,
        }
    }

    fn run(&self, widget: &mut Widget) -> (result: Result<(), HandlerFault>) {
        match self {
            LabelHandler::Replace(text) => {
                widget.set_label(text.clone());
                Ok(())
            },
            LabelHandler::Append(text) => {
                let mut label = widget.label().clone();
                label.append(text.as_str());
                widget.set_label(label);
                Ok(())
            },
            LabelHandler::Fail(fault) => Err(fault.clone()),
        }
    }
}

} // verus!
