//! The logic of a small desktop shell, verified.
//!
//! Two parts make it up. The handler chain ([`registry`], [`chain`], [`handler`],
//! [`widget`]) keeps, for each event of each widget, the handlers registered for
//! it, and runs them in that order when the event is dispatched. The dialog
//! workflow ([`workflow`], [`dialog`]) is the rule of a short exchange with the
//! user: pick a path, confirm it, act on it. Neither part touches a toolkit: the
//! program around them creates the widgets, presents the dialogs and owns the
//! event loop.

pub mod chain;
pub mod dialog;
pub mod handler;
pub mod registry;
pub mod text;
pub mod widget;
pub mod workflow;
