//! The message loop of a thread: the state that guards it, what one turn of
//! it does with what was fetched, and how `block_on` reads its result.

use crate::backend::{thread_queue, WakeTarget};
use crate::message::Msg;
use crate::task::{Poll, Task, TaskState, TaskView};
use vstd::prelude::*;

verus! {

/// Returned by [`block_on`] when the message loop was quit before the future
/// had returned ready.
#[derive(Debug, Clone, Copy, PartialEq, Eq, Structural)]
pub struct QuitMessageLoop;

/// The mathematical content of a [`ThreadState`].
pub struct ThreadView<P> {
    /// A message loop of the executor is running on the thread.
    pub running: bool,
    /// The message filter hook is registered, or its registration is under way.
    pub hooked: bool,
    /// The payload of a panic that was caught where it could not be passed on,
    /// and waits to be raised again by the message loop.
    pub panic: Option<P>,
}

/// What the executor keeps per thread. `P` is the type of a panic payload.
#[derive(Debug)]
pub struct ThreadState<P> {
    running: bool,
    hooked: bool,
    panic: Option<P>,
}

impl<P> View for ThreadState<P> {
    type V = ThreadView<P>;

    closed spec fn view(&self) -> ThreadView<P> {
        ThreadView { running: self.running, hooked: self.hooked, panic: self.panic }
    }
}

impl<P> ThreadState<P> {
    /// The state of a thread on which nothing of the executor runs yet.
    pub fn new() -> (state: Self)
        ensures
            state@ == (ThreadView::<P> { running: false, hooked: false, panic: None }),
    {
        ThreadState { running: false, hooked: false, panic: None }
    }

    /// Whether a message loop of the executor is running on the thread.
    pub fn is_running(&self) -> (running: bool)
        ensures
            running == self@.running,
    {
        self.running
    }

    /// Whether the message filter hook is registered.
    pub fn is_hooked(&self) -> (hooked: bool)
        ensures
            hooked == self@.hooked,
    {
        self.hooked
    }

    /// Claims the thread for a message loop. The result says whether the claim
    /// was granted, which it is exactly if no loop was running; starting a
    /// second one is a contract violation that the caller answers. Either way
    /// a loop is running afterwards.
    pub fn enter(&mut self) -> (entered: bool)
        ensures
            entered == !old(self)@.running,
            final(self)@ == (ThreadView { running: true, ..old(self)@ }),
    {
        let entered = !self.running;
        self.running = true;
        entered
    }

    /// Releases the thread at the end of a message loop. The hook has been
    /// unregistered before.
    pub fn leave(&mut self)
        requires
            old(self)@.running,
            !old(self)@.hooked,
        ensures
            final(self)@ == (ThreadView { running: false, ..old(self)@ }),
    {
        self.running = false;
    }

    /// Claims the thread's one place for a message filter hook, before the
    /// hook is registered with the system. The result says whether the claim
    /// was granted, which it is exactly if the place was free; registering a
    /// second hook is a contract violation that the caller answers.
    pub fn reserve_hook(&mut self) -> (reserved: bool)
        ensures
            reserved == !old(self)@.hooked,
            final(self)@ == (ThreadView { hooked: true, ..old(self)@ }),
    {
        let reserved = !self.hooked;
        self.hooked = true;
        reserved
    }

    /// Takes the payload of a caught panic out, for the message loop to raise
    /// it again between two turns.
    pub fn take_panic(&mut self) -> (payload: Option<P>)
        ensures
            payload == old(self)@.panic,
            final(self)@ == (ThreadView { panic: None, ..old(self)@ }),
    {
        self.panic.take()
    }

    /// Stores the payload of a panic that a filter raised inside the hook.
    /// A payload that was stored before and not taken out is dropped.
    pub(crate) fn capture_panic(&mut self, payload: P)
        ensures
            final(self)@ == (ThreadView { panic: Some(payload), ..old(self)@ }),
    {
        self.panic = Some(payload);
    }

    /// Frees the thread's place for a message filter hook.
    pub(crate) fn release_hook(&mut self)
        ensures
            final(self)@ == (ThreadView { hooked: false, ..old(self)@ }),
    {
        self.hooked = false;
    }
}

/// What fetching the next message brought.
#[derive(Debug, Clone, Copy, PartialEq, Eq, Structural)]
pub enum Fetched {
    /// The quit sentinel: the loop ends.
    Quit,
    /// A message, which goes through the filter hook.
    Message,
}

/// What the result `ret` of fetching the next message means: zero is the quit
/// sentinel, one is a message.
pub open spec fn spec_fetched(ret: i32) -> Fetched {
    if ret == 0 {
        Fetched::Quit
    } else {
        Fetched::Message
    }
}

/// Decides from the result of fetching the next message whether the loop
/// ends. Any result but zero and one is a contract violation.
#[verifier::when_used_as_spec(spec_fetched)]
pub fn fetched(ret: i32) -> (what: Fetched)
    requires
        ret == 0 || ret == 1,
    ensures
        what == spec_fetched(ret),
{
    if ret == 0 {
        Fetched::Quit
    } else {
        Fetched::Message
    }
}

/// Whether a message is handed to the system's translation and dispatch
/// after the filter hook answered `filtered` for it: only if the answer is
/// zero, which says that no filter handled the message.
pub open spec fn spec_forwards(filtered: i32) -> bool {
    filtered == 0
}

/// Decides from the answer of the filter hook whether the message is handed
/// to the system's translation and dispatch.
#[verifier::when_used_as_spec(spec_forwards)]
pub fn forwards(filtered: i32) -> (forward: bool)
    ensures
        forward == spec_forwards(filtered),
{
    filtered == 0
}

/// What becomes of a message that a loop on the thread has taken. Exactly one
/// of the three applies to every message.
#[derive(Debug, Clone, Copy, PartialEq, Eq, Structural)]
pub enum Verdict {
    /// The message is a wake: it is consumed, and the task behind this payload
    /// is to run.
    Run(isize),
    /// The host's filter handled the message: it is discarded.
    Discard,
    /// Nobody handled the message: it goes on to the system's translation and
    /// dispatch, and so to the window procedure of its window.
    Forward,
}

impl Verdict {
    /// The verdict on a message for which the wake recogniser returned `wake`
    /// and for which the host's filter, if it is asked, answers `user`.
    pub open spec fn of(wake: Option<isize>, user: bool) -> Verdict {
        match wake {
            Some(payload) => Verdict::Run(payload),
            None => if user {
                Verdict::Discard
            } else {
                Verdict::Forward
            },
        }
    }

    /// Whether the filter answers for the message that it was handled.
    pub open spec fn spec_handled(self) -> bool {
        self != Verdict::Forward
    }

    /// Whether the filter answers for the message that it was handled: for
    /// every message but one that is forwarded.
    #[verifier::when_used_as_spec(spec_handled)]
    pub fn handled(self) -> (handled: bool)
        ensures
            handled == self.spec_handled(),
    {
        match self {
            Verdict::Forward => false,
            _ => true,
        }
    }
}

/// The filter that the message loop registers with the hook, for a message
/// for which the wake recogniser returned `wake`. The recogniser comes first:
/// a wake is consumed whatever the host's filter would say, and the host's
/// filter `user` is asked about the other messages only.
pub fn filter<F: FnOnce() -> bool>(wake: Option<isize>, user: F) -> (verdict: Verdict)
    requires
        wake is None ==> user.requires(()),
    ensures
        wake is Some ==> verdict == Verdict::of(wake, false),
        wake is None ==> exists|handled: bool|
            user.ensures((), handled) && verdict == Verdict::of(wake, handled),
{
    match wake {
        Some(payload) => Verdict::Run(payload),
        None => {
            let handled = user();
            let verdict = if handled {
                Verdict::Discard
            } else {
                Verdict::Forward
            };
            assert(user.ensures((), handled) && verdict == Verdict::of(wake, handled));
            verdict
        },
    }
}

/// A message that is addressed to a window is never consumed as a wake over
/// the thread's queue, whatever its number: unless the host's filter handles
/// it, it is forwarded.
pub proof fn lemma_window_message_is_forwarded(msg: Msg, user: bool)
    requires
        msg.hwnd != 0,
    ensures
        thread_queue::spec_dispatch(&msg) is None,
        !user ==> Verdict::of(thread_queue::spec_dispatch(&msg), user) == Verdict::Forward,
{
}

/// A new task that wakes over `target`, and the wake that schedules its first
/// poll, which the caller posts. It does not matter whether a message loop is
/// running: the wake waits in the queue until one does.
pub fn spawn<T, W>(target: WakeTarget, payload: isize) -> (spawned: (Task<T, W>, Msg))
    ensures
        spawned.0@ == TaskView::<T, W>::spawned(target),
        spawned.1 == target.spec_wake_message(payload),
{
    let task = Task::spawn(target);
    let first = task.wake(payload);
    (task, first)
}

/// The output of a task if it is stored, and that the task is not ready
/// otherwise.
pub open spec fn spec_poll_ready<T, W>(task: TaskView<T, W>) -> Result<T, ()> {
    match task.state {
        TaskState::Completed(output) => Ok(output),
        _ => Err(()),
    }
}

/// Polls the join handle of `task` once, on behalf of nobody: `noop` is a
/// waker that wakes nothing.
pub fn poll_ready<T, W>(task: &mut Task<T, W>, noop: W) -> (ready: Result<T, ()>)
    requires
        old(task)@.state !is Closed,
    ensures
        ready == spec_poll_ready(old(task)@),
        final(task)@ == old(task)@.poll_join(noop, false),
{
    match task.poll_join(noop, false) {
        Poll::Ready(output) => Ok(output),
        Poll::Pending => Err(()),
    }
}

/// What `block_on` returns for the task that wraps its future, once the
/// message loop has returned.
pub open spec fn spec_block_on<T, W>(task: TaskView<T, W>) -> Result<T, QuitMessageLoop> {
    match task.state {
        TaskState::Completed(output) => Ok(output),
        _ => Err(QuitMessageLoop),
    }
}

/// Reads the result of `block_on` from the task that wraps its future, once
/// the message loop has returned: the output if the future has returned
/// ready, else the error that says that the loop was quit. The task is closed
/// either way; in the second case the caller drops the future.
pub fn block_on<T, W>(task: &mut Task<T, W>, noop: W) -> (result: Result<T, QuitMessageLoop>)
    requires
        old(task)@.state !is Closed,
    ensures
        result == spec_block_on(old(task)@),
        final(task)@ == old(task)@.poll_abandon(),
{
    let ready = poll_ready(task, noop);
    task.poll_abandon();
    match ready {
        Ok(output) => Ok(output),
        Err(_) => Err(QuitMessageLoop),
    }
}

} // verus!
