//! The two wake channels. Both carry one payload word per wake, from any
//! thread to the thread that owns the task.

pub mod thread_queue;
pub mod window;

use crate::message::Msg;
use vstd::prelude::*;

verus! {

/// Where the wakes of a task are posted. The target is a lookup key: it does
/// not own the thread or the window.
#[derive(Debug, Clone, Copy, PartialEq, Eq, Structural)]
pub enum WakeTarget {
    /// The queue of the thread with this id, under the reserved number.
    Thread(u32),
    /// The task's own message-only window.
    Window(isize),
}

impl WakeTarget {
    /// The message that wakes the task behind `payload` over this channel.
    pub open spec fn spec_wake_message(&self, payload: isize) -> Msg {
        match *self {
            WakeTarget::Thread(_) => thread_queue::spec_wake_message(payload),
            WakeTarget::Window(hwnd) => window::spec_wake_message(hwnd, payload),
        }
    }

    /// The message that wakes the task behind `payload` over this channel.
    /// One call makes one message; calling twice makes two.
    #[verifier::when_used_as_spec(spec_wake_message)]
    pub fn wake_message(&self, payload: isize) -> (msg: Msg)
        ensures
            msg == self.spec_wake_message(payload),
    {
        match *self {
            WakeTarget::Thread(_) => thread_queue::wake_message(payload),
            WakeTarget::Window(hwnd) => window::wake_message(hwnd, payload),
        }
    }

    /// The thread to whose queue the wake is posted, where the channel names
    /// it. A message for a window goes to the thread that owns the window.
    pub open spec fn spec_thread(&self) -> Option<u32> {
        match *self {
            WakeTarget::Thread(id) => Some(id),
            WakeTarget::Window(_) => None,
        }
    }

    /// The thread to whose queue the wake is posted, where the channel names it.
    #[verifier::when_used_as_spec(spec_thread)]
    pub fn thread(&self) -> (id: Option<u32>)
        ensures
            id == self.spec_thread(),
    {
        match *self {
            WakeTarget::Thread(id) => Some(id),
            WakeTarget::Window(_) => None,
        }
    }

    /// The payload of `msg` if the owning thread takes it for a wake over this
    /// channel: in the message loop for the thread's queue, in the window
    /// procedure for the task's window.
    pub open spec fn spec_received(&self, msg: &Msg) -> Option<isize> {
        match *self {
            WakeTarget::Thread(_) => thread_queue::spec_dispatch(msg),
            WakeTarget::Window(hwnd) => if msg.hwnd == hwnd {
                window::spec_wndproc(&msg.spec_delivered()).run
            } else {
                None
            },
        }
    }

    /// A wake reaches no task but its own: whatever is taken for a wake
    /// carries the payload with which it was posted.
    pub proof fn lemma_wake_keeps_payload(self, other: WakeTarget, posted: isize)
        ensures
            self.spec_received(&other.spec_wake_message(posted)) matches Some(payload)
                ==> payload == posted,
    {
    }

    /// The two channels are interchangeable: over either, a wake that was
    /// posted is taken for a wake by the owning thread, with the same payload,
    /// whichever thread posted it.
    pub proof fn lemma_wake_round_trip(self, payload: isize)
        ensures
            self.spec_received(&self.spec_wake_message(payload)) == Some(payload),
    {
    }
}

} // verus!
