//! A message-only window whose window procedure is a boxed closure, kept in
//! the window's user data from its creation to its last notification.

use crate::sys::{
    hwnd_message, spec_hwnd_message, spec_wm_getminmaxinfo, spec_wm_nccreate, spec_wm_ncdestroy,
    wm_getminmaxinfo, wm_nccreate, wm_ncdestroy,
};
use crate::util::window::{CreateParams, Reply};
use vstd::prelude::*;

verus! {

/// The creation arguments of the window: no styles, no position or size, and
/// the parent that makes it a message-only window.
pub open spec fn spec_create_window() -> CreateParams {
    CreateParams {
        ex_style: 0,
        style: 0,
        x: 0,
        y: 0,
        width: 0,
        height: 0,
        parent: spec_hwnd_message(),
    }
}

/// What is handed to the system to create the window. The window must be
/// destroyed through the handle that the system returns for it.
#[verifier::when_used_as_spec(spec_create_window)]
pub fn create_window() -> (params: CreateParams)
    ensures
        params == spec_create_window(),
{
    CreateParams { ex_style: 0, style: 0, x: 0, y: 0, width: 0, height: 0, parent: hwnd_message() }
}

/// What the window procedure does with a message.
#[derive(Debug, Clone, Copy, PartialEq, Eq, Structural)]
pub enum WndProc {
    /// The closure is not attached yet: answer with the default procedure.
    Default,
    /// Attach the closure from the creation parameters to the window, and
    /// answer one, which lets the creation go on.
    Attach,
    /// Free the closure without calling it, and answer zero.
    Release,
    /// Call the closure, and answer as [`called`] says.
    Call,
}

impl WndProc {
    /// The answer to the system where the step fixes it.
    pub open spec fn spec_answer(self) -> Option<Reply> {
        match self {
            WndProc::Default => Some(Reply::Default),
            WndProc::Attach => Some(Reply::Return(1)),
            WndProc::Release => Some(Reply::Return(0)),
            WndProc::Call => None,
        }
    }

    /// The answer to the system where the step fixes it; none where the
    /// closure is called first.
    #[verifier::when_used_as_spec(spec_answer)]
    pub fn answer(self) -> (answer: Option<Reply>)
        ensures
            answer == self.spec_answer(),
    {
        match self {
            WndProc::Default => Some(Reply::Default),
            WndProc::Attach => Some(Reply::Return(1)),
            WndProc::Release => Some(Reply::Return(0)),
            WndProc::Call => None,
        }
    }
}

/// The window procedure. The first message of a window's life arrives before
/// the closure is attached; the one that carries the creation parameters
/// attaches it; the last one frees it; every other message is the closure's.
pub open spec fn spec_wndproc(msg: u32) -> WndProc {
    if msg == spec_wm_getminmaxinfo() {
        WndProc::Default
    } else if msg == spec_wm_nccreate() {
        WndProc::Attach
    } else if msg == spec_wm_ncdestroy() {
        WndProc::Release
    } else {
        WndProc::Call
    }
}

/// Decides what the window procedure does with message `msg`.
#[verifier::when_used_as_spec(spec_wndproc)]
pub fn wndproc(msg: u32) -> (step: WndProc)
    ensures
        step == spec_wndproc(msg),
{
    if msg == wm_getminmaxinfo() {
        WndProc::Default
    } else if msg == wm_nccreate() {
        WndProc::Attach
    } else if msg == wm_ncdestroy() {
        WndProc::Release
    } else {
        WndProc::Call
    }
}

/// The answer of the window procedure after the closure returned `ret`: the
/// closure's answer, or the default procedure's where the closure gave none.
pub open spec fn spec_called(ret: Option<isize>) -> Reply {
    match ret {
        Some(result) => Reply::Return(result),
        None => Reply::Default,
    }
}

/// Decides the answer of the window procedure after the closure returned.
#[verifier::when_used_as_spec(spec_called)]
pub fn called(ret: Option<isize>) -> (reply: Reply)
    ensures
        reply == spec_called(ret),
{
    match ret {
        Some(result) => Reply::Return(result),
        None => Reply::Default,
    }
}

} // verus!
