//! Wake channel over a message-only window of the task's own: a wake is a
//! message posted to that window, and the system routes it to the window
//! procedure.

use crate::message::Msg;
use crate::sys::{spec_wm_user, wm_user};
use crate::util::window::WindowMessage;
use vstd::prelude::*;

verus! {

/// The number of a wake message, private to the window class.
pub open spec fn spec_msg_id_wake() -> u32 {
    spec_wm_user()
}

/// The number of a wake message, 0x0400.
#[verifier::when_used_as_spec(spec_msg_id_wake)]
pub fn msg_id_wake() -> (id: u32)
    ensures
        id == spec_msg_id_wake(),
        id == 0x0400,
{
    wm_user()
}

/// The message that wakes the task behind `payload`, whose window is `hwnd`.
pub open spec fn spec_wake_message(hwnd: isize, payload: isize) -> Msg {
    Msg { hwnd, message: spec_msg_id_wake(), wparam: 0, lparam: payload }
}

/// The message that wakes the task behind `payload`: addressed to the task's
/// window, with the payload in the second word. It does not depend on the
/// thread that posts it.
#[verifier::when_used_as_spec(spec_wake_message)]
pub fn wake_message(hwnd: isize, payload: isize) -> (msg: Msg)
    ensures
        msg == spec_wake_message(hwnd, payload),
{
    Msg { hwnd, message: msg_id_wake(), wparam: 0, lparam: payload }
}

/// Nothing: with this channel the message loop consumes no message.
pub open spec fn spec_dispatch(msg: &Msg) -> Option<isize> {
    None
}

/// The wake recogniser of the message loop, which with this channel consumes
/// nothing: every message is forwarded, and the system hands a wake to the
/// window procedure of the task's window.
#[verifier::when_used_as_spec(spec_dispatch)]
pub fn dispatch(msg: &Msg) -> (run: Option<isize>)
    ensures
        run == spec_dispatch(msg),
{
    None
}

/// What the window procedure of a task's window does with a message.
#[derive(Debug, Clone, Copy, PartialEq, Eq, Structural)]
pub struct TaskWndProc {
    /// The payload whose task is to run, if the message is a wake.
    pub run: Option<isize>,
    /// The procedure's answer: zero for a wake, none for anything else.
    pub ret: Option<isize>,
}

/// The window procedure of a task's window: a message under the wake number
/// runs the task behind its payload and is answered with zero; any other
/// message is left to the default procedure.
pub open spec fn spec_wndproc(msg: &WindowMessage) -> TaskWndProc {
    if msg.msg == spec_msg_id_wake() {
        TaskWndProc { run: Some(msg.lparam), ret: Some(0) }
    } else {
        TaskWndProc { run: None, ret: None }
    }
}

/// Decides what the window procedure of a task's window does with `msg`.
#[verifier::when_used_as_spec(spec_wndproc)]
pub fn wndproc(msg: &WindowMessage) -> (step: TaskWndProc)
    ensures
        step == spec_wndproc(msg),
{
    if msg.msg == msg_id_wake() {
        TaskWndProc { run: Some(msg.lparam), ret: Some(0) }
    } else {
        TaskWndProc { run: None, ret: None }
    }
}

/// A wake that was posted to a task's window is recognised by the window
/// procedure when the system delivers it, with its payload.
pub proof fn lemma_wake_round_trip(hwnd: isize, payload: isize)
    ensures
        spec_wndproc(&spec_wake_message(hwnd, payload).spec_delivered()).run == Some(payload),
{
}

} // verus!
