//! Messages of a thread's queue, as plain values.

use crate::util::window::WindowMessage;
use vstd::prelude::*;

verus! {

/// One message of a thread's message queue: the window it is addressed to (or
/// the null handle, for a message posted to the thread itself), its number,
/// and two payload words whose meaning depends on the number.
#[derive(Debug, Clone, Copy, PartialEq, Eq, Structural)]
pub struct Msg {
    pub hwnd: isize,
    pub message: u32,
    pub wparam: usize,
    pub lparam: isize,
}

impl Msg {
    /// The arguments with which the window procedure of the message's window
    /// is called when the message is dispatched: the same four words.
    pub open spec fn spec_delivered(&self) -> WindowMessage {
        WindowMessage { hwnd: self.hwnd, msg: self.message, wparam: self.wparam, lparam: self.lparam }
    }

    /// The arguments with which the window procedure of the message's window
    /// is called when the message is dispatched.
    #[verifier::when_used_as_spec(spec_delivered)]
    pub fn delivered(&self) -> (args: WindowMessage)
        ensures
            args == self.spec_delivered(),
    {
        WindowMessage { hwnd: self.hwnd, msg: self.message, wparam: self.wparam, lparam: self.lparam }
    }
}

} // verus!
