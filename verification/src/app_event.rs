//! What the engine hands to the thread that owns the window.

use vstd::prelude::*;

verus! {

/// An event for the thread that owns the window.
#[derive(Debug)]
pub enum AppEvent {
    /// Run this script in the web view: a call of `window.onRustMessage`.
    EvalScript(String),
    /// Flash or bounce the window if it is not focused.
    RequestAttention,
    /// Keep the window above the others, or stop doing so.
    SetAlwaysOnTop(bool),
}

/// The mathematical value of an [`AppEvent`].
pub enum AppEventView {
    EvalScript(Seq<char>),
    RequestAttention,
    SetAlwaysOnTop(bool),
}

impl View for AppEvent {
    type V = AppEventView;

    open spec fn view(&self) -> AppEventView {
        match *self {
            AppEvent::EvalScript(script) => AppEventView::EvalScript(script@),
            AppEvent::RequestAttention => AppEventView::RequestAttention,
            AppEvent::SetAlwaysOnTop(enabled) => AppEventView::SetAlwaysOnTop(enabled),
        }
    }
}

impl Clone for AppEvent {
    fn clone(&self) -> (res: AppEvent)
        ensures
            res@ == self@,
    {
        match self {
            AppEvent::EvalScript(script) => AppEvent::EvalScript(script.clone()),
            AppEvent::RequestAttention => AppEvent::RequestAttention,
            AppEvent::SetAlwaysOnTop(enabled) => AppEvent::SetAlwaysOnTop(*enabled),
        }
    }
}

} // verus!
