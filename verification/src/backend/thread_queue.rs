//! Wake channel over the thread's own queue: a wake is a message posted to
//! the thread, under a reserved number of the application range.

use crate::message::Msg;
use crate::sys::{spec_wm_app, wm_app};
use vstd::prelude::*;

verus! {

/// The reserved message number, 0xB43A. A host that posts messages of its
/// own to the thread must not use it.
pub open spec fn spec_msg_id_wake() -> u32 {
    (spec_wm_app() + 13370) as u32
}

/// The reserved message number, 0xB43A.
#[verifier::when_used_as_spec(spec_msg_id_wake)]
pub fn msg_id_wake() -> (id: u32)
    ensures
        id == spec_msg_id_wake(),
        id == 0xB43A,
{
    wm_app() + 13370
}

/// The message that wakes the task behind `payload`.
pub open spec fn spec_wake_message(payload: isize) -> Msg {
    Msg { hwnd: 0, message: spec_msg_id_wake(), wparam: 0, lparam: payload }
}

/// The message that wakes the task behind `payload`: addressed to the thread,
/// under the reserved number, with the payload in the second word. It does
/// not depend on the thread that posts it.
#[verifier::when_used_as_spec(spec_wake_message)]
pub fn wake_message(payload: isize) -> (msg: Msg)
    ensures
        msg == spec_wake_message(payload),
{
    Msg { hwnd: 0, message: msg_id_wake(), wparam: 0, lparam: payload }
}

/// Whether `msg` is a wake: posted to the thread, under the reserved number.
pub open spec fn is_wake(msg: Msg) -> bool {
    msg.hwnd == 0 && msg.message == spec_msg_id_wake()
}

/// The payload of `msg` if it is a wake, else nothing.
pub open spec fn spec_dispatch(msg: &Msg) -> Option<isize> {
    if is_wake(*msg) {
        Some(msg.lparam)
    } else {
        None
    }
}

/// The wake recogniser of the message loop. A wake is consumed: the result is
/// the payload whose task is to run, and the message is not forwarded. A
/// message under the reserved number that is addressed to a window is no wake.
#[verifier::when_used_as_spec(spec_dispatch)]
pub fn dispatch(msg: &Msg) -> (run: Option<isize>)
    ensures
        run == spec_dispatch(msg),
{
    if msg.hwnd == 0 && msg.message == msg_id_wake() {
        Some(msg.lparam)
    } else {
        None
    }
}

/// A wake that was posted is recognised when it is received, with its payload.
pub proof fn lemma_wake_round_trip(payload: isize)
    ensures
        spec_dispatch(&spec_wake_message(payload)) == Some(payload),
{
}

} // verus!
