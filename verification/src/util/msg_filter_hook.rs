//! The per-thread message filter hook, which every message loop on the
//! thread calls before it dispatches a message: the executor's own loop and
//! the loops that the system runs for modal windows and menus.

use crate::message_loop::{ThreadState, ThreadView};
use vstd::prelude::*;

verus! {

/// The system refused to register the hook: it returned the null handle.
#[derive(Debug, Clone, Copy, PartialEq, Eq, Structural)]
pub struct HookRegistrationError;

/// A registered message filter hook. There is at most one per thread.
#[derive(Debug)]
pub struct MsgFilterHook {
    handle: isize,
}

/// What the hook procedure answers.
#[derive(Debug, Clone, Copy, PartialEq, Eq, Structural)]
pub enum HookReply {
    /// The message is handled: the loop that asked does not dispatch it.
    Handled,
    /// The answer is that of the next hook in the chain.
    CallNext,
}

impl HookReply {
    /// The result of the hook procedure where it answers itself: one, which
    /// says that the message was handled.
    pub open spec fn spec_result(self) -> Option<isize> {
        match self {
            HookReply::Handled => Some(1),
            HookReply::CallNext => None,
        }
    }

    /// The result of the hook procedure where it answers itself; none where
    /// the caller returns what the next hook in the chain answers.
    #[verifier::when_used_as_spec(spec_result)]
    pub fn result(self) -> (result: Option<isize>)
        ensures
            result == self.spec_result(),
    {
        match self {
            HookReply::Handled => Some(1),
            HookReply::CallNext => None,
        }
    }
}

/// What the hook procedure answers after the filter ran: `Ok` with the
/// filter's own answer, or `Err` if the filter panicked. A panic cannot pass
/// through the system's loop, so the message counts as handled.
pub open spec fn spec_hook_reply<P>(filtered: Result<bool, P>) -> HookReply {
    match filtered {
        Ok(false) => HookReply::CallNext,
        _ => HookReply::Handled,
    }
}

/// The thread's state after the hook procedure ran: the payload of a panic is
/// stored, for the message loop to raise it again.
pub open spec fn spec_hook_state<P>(thread: ThreadView<P>, filtered: Result<bool, P>) -> ThreadView<
    P,
> {
    match filtered {
        Err(payload) => ThreadView { panic: Some(payload), ..thread },
        Ok(_) => thread,
    }
}

/// The hook procedure, after the filter ran on the message. `code` says which
/// kind of loop asks (a dialog box, a menu, the executor's own loop); the
/// answer is the same for all of them.
pub fn hook_proc<P>(thread: &mut ThreadState<P>, code: i32, filtered: Result<bool, P>) -> (reply:
    HookReply)
    ensures
        reply == spec_hook_reply(filtered),
        final(thread)@ == spec_hook_state(old(thread)@, filtered),
{
    match filtered {
        Ok(true) => HookReply::Handled,
        Ok(false) => HookReply::CallNext,
        Err(payload) => {
            thread.capture_panic(payload);
            HookReply::Handled
        },
    }
}

impl MsgFilterHook {
    #[verifier::type_invariant]
    closed spec fn inv(self) -> bool {
        self.handle != 0
    }

    /// The handle under which the system knows the hook.
    pub closed spec fn spec_handle(&self) -> isize {
        self.handle
    }

    /// The handle under which the system knows the hook, which is not null.
    #[verifier::when_used_as_spec(spec_handle)]
    pub fn handle(&self) -> (handle: isize)
        ensures
            handle == self.spec_handle(),
            handle != 0,
    {
        proof {
            use_type_invariant(self);
        }
        self.handle
    }

    /// Completes the registration of the thread's hook with the handle that
    /// the system returned for it. The thread's place for a hook has been
    /// reserved before. A null handle says that the system refused: the place
    /// is freed again and the error returned.
    pub fn register<P>(thread: &mut ThreadState<P>, handle: isize) -> (hook: Result<
        Self,
        HookRegistrationError,
    >)
        requires
            old(thread)@.hooked,
        ensures
            handle == 0 <==> hook is Err,
            hook matches Ok(h) ==> h.spec_handle() == handle,
            final(thread)@ == (ThreadView { hooked: handle != 0, ..old(thread)@ }),
    {
        if handle == 0 {
            thread.release_hook();
            Err(HookRegistrationError)
        } else {
            Ok(MsgFilterHook { handle })
        }
    }

    /// Gives the hook up and frees the thread's place for one. The result is
    /// the handle to unregister with the system.
    pub fn unregister<P>(self, thread: &mut ThreadState<P>) -> (handle: isize)
        ensures
            handle == self.spec_handle(),
            handle != 0,
            final(thread)@ == (ThreadView { hooked: false, ..old(thread)@ }),
    {
        proof {
            use_type_invariant(&self);
        }
        thread.release_hook();
        self.handle
    }
}

} // verus!
