//! The task object: what a spawned future's bookkeeping is, and how it moves
//! when a wake is received, when a poll returns, when the join handle is
//! polled and when it is dropped.
//!
//! The future itself is polled by the caller. A poll is bracketed by
//! [`Task::poll_begin`] and [`Task::poll_end`], so that whatever runs while the
//! future is being polled (a nested message loop of a modal window) finds the
//! task in a state that refuses a second poll.

use crate::backend::WakeTarget;
use crate::message::Msg;
use vstd::prelude::*;

verus! {

/// The result of polling once.
#[derive(Debug, PartialEq, Eq)]
pub enum Poll<T> {
    Ready(T),
    Pending,
}

/// The states of a task. They are passed through in this order, never back.
#[derive(Debug, PartialEq, Eq)]
pub enum TaskState<T, W> {
    /// The future has not returned ready. The waker is that of whoever awaits
    /// the join handle, if anyone does.
    Running(Option<W>),
    /// The future returned this output, and nobody has taken it yet.
    Completed(T),
    /// The output was taken or dropped, or the task was abandoned.
    Closed,
}

/// What the caller does after a poll of the future returned.
#[derive(Debug, PartialEq, Eq)]
pub enum AfterPoll<W> {
    /// The future is pending: it is polled again when its next wake is received.
    Wait,
    /// The future is pending, and a wake for it was received while it was being
    /// polled: post one more wake for it.
    Reschedule,
    /// The future is ready. If a waker comes along, wake it: it is the join
    /// handle's.
    Finished(Option<W>),
}

/// The mathematical content of a [`Task`].
pub struct TaskView<T, W> {
    /// Where wakes for the task are posted.
    pub target: WakeTarget,
    pub state: TaskState<T, W>,
    /// A poll of the future is in progress.
    pub polling: bool,
    /// A wake was received while the poll in progress was running.
    pub rewake: bool,
    /// The task has no join handle any more.
    pub detached: bool,
}

impl<T, W> TaskView<T, W> {
    /// Only a running task is polled, a wake is only held back during a poll,
    /// and a detached task stores no output.
    pub open spec fn wf(self) -> bool {
        &&& self.polling ==> self.state is Running
        &&& self.rewake ==> self.polling
        &&& self.detached ==> self.state !is Completed
    }

    /// A task as `spawn` makes it: running, awaited by nobody, not being
    /// polled, with its join handle alive.
    pub open spec fn spawned(target: WakeTarget) -> Self {
        TaskView {
            target,
            state: TaskState::Running(None),
            polling: false,
            rewake: false,
            detached: false,
        }
    }

    /// Whether receiving a wake starts a poll: the task is running and no poll
    /// of it is in progress.
    pub open spec fn pollable(self) -> bool {
        self.state is Running && !self.polling
    }

    /// The task after a wake for it was received.
    pub open spec fn poll_begin(self) -> Self {
        if self.state is Running {
            if self.polling {
                TaskView { rewake: true, ..self }
            } else {
                TaskView { polling: true, ..self }
            }
        } else {
            self
        }
    }

    /// The task after the poll in progress returned `outcome`.
    pub open spec fn poll_end(self, outcome: Poll<T>) -> Self {
        match outcome {
            Poll::Pending => TaskView { polling: false, rewake: false, ..self },
            Poll::Ready(output) => TaskView {
                state: if self.detached {
                    TaskState::Closed
                } else {
                    TaskState::Completed(output)
                },
                polling: false,
                rewake: false,
                ..self
            },
        }
    }

    /// What the caller does after the poll in progress returned `outcome`.
    pub open spec fn after_poll(self, outcome: Poll<T>) -> AfterPoll<W> {
        match outcome {
            Poll::Pending => if self.rewake {
                AfterPoll::Reschedule
            } else {
                AfterPoll::Wait
            },
            Poll::Ready(_) => AfterPoll::Finished(self.join_waker()),
        }
    }

    /// The waker of whoever awaits the join handle.
    pub open spec fn join_waker(self) -> Option<W> {
        match self.state {
            TaskState::Running(waker) => waker,
            _ => None,
        }
    }

    /// The task after it was abandoned: closed, holding nothing.
    pub open spec fn poll_abandon(self) -> Self {
        TaskView { state: TaskState::Closed, polling: false, rewake: false, ..self }
    }

    /// The task after its join handle was polled by a future whose waker is
    /// `current`; `will_wake` says whether the stored waker wakes that future.
    pub open spec fn poll_join(self, current: W, will_wake: bool) -> Self {
        match self.state {
            TaskState::Running(Some(_)) if will_wake => self,
            TaskState::Running(_) => TaskView { state: TaskState::Running(Some(current)), ..self },
            _ => TaskView { state: TaskState::Closed, ..self },
        }
    }

    /// What polling the join handle returns.
    pub open spec fn joined(self) -> Poll<T> {
        match self.state {
            TaskState::Completed(output) => Poll::Ready(output),
            _ => Poll::Pending,
        }
    }

    /// The task after its join handle was dropped.
    pub open spec fn detach(self) -> Self {
        TaskView {
            state: match self.state {
                TaskState::Running(_) => TaskState::Running(None),
                _ => TaskState::Closed,
            },
            detached: true,
            ..self
        }
    }
}

/// The bookkeeping of one spawned future.
#[derive(Debug)]
pub struct Task<T, W> {
    target: WakeTarget,
    state: TaskState<T, W>,
    polling: bool,
    rewake: bool,
    detached: bool,
}

impl<T, W> View for Task<T, W> {
    type V = TaskView<T, W>;

    closed spec fn view(&self) -> TaskView<T, W> {
        TaskView {
            target: self.target,
            state: self.state,
            polling: self.polling,
            rewake: self.rewake,
            detached: self.detached,
        }
    }
}

impl<T, W> Task<T, W> {
    #[verifier::type_invariant]
    closed spec fn inv(self) -> bool {
        self@.wf()
    }

    /// A new task for a future that wakes over `target`: running, awaited by
    /// nobody, with its join handle alive. The caller schedules the first poll
    /// by posting the task's wake once.
    pub fn spawn(target: WakeTarget) -> (task: Self)
        ensures
            task@ == TaskView::<T, W>::spawned(target),
            task@.wf(),
    {
        Task { target, state: TaskState::Running(None), polling: false, rewake: false, detached: false }
    }

    /// The message that a waker of the task posts, for the payload that
    /// carries one reference to the task. It is the same from every thread.
    pub fn wake(&self, payload: isize) -> (msg: Msg)
        ensures
            msg == self@.target.spec_wake_message(payload),
    {
        self.target.wake_message(payload)
    }

    /// Where wakes for the task are posted.
    pub fn target(&self) -> (target: WakeTarget)
        ensures
            target == self@.target,
    {
        self.target
    }

    /// Whether a poll of the future is in progress.
    pub fn is_polling(&self) -> (polling: bool)
        ensures
            polling == self@.polling,
    {
        self.polling
    }

    /// Whether the future has not returned ready yet.
    pub fn is_running(&self) -> (running: bool)
        ensures
            running == (self@.state is Running),
    {
        match self.state {
            TaskState::Running(_) => true,
            _ => false,
        }
    }

    /// Whether the output is stored and waits to be taken.
    pub fn is_completed(&self) -> (completed: bool)
        ensures
            completed == (self@.state is Completed),
    {
        match self.state {
            TaskState::Completed(_) => true,
            _ => false,
        }
    }

    /// Whether the task is closed: it holds no output and will not be polled.
    pub fn is_closed(&self) -> (closed: bool)
        ensures
            closed == (self@.state is Closed),
    {
        match self.state {
            TaskState::Closed => true,
            _ => false,
        }
    }

    /// Whether the join handle was dropped.
    pub fn is_detached(&self) -> (detached: bool)
        ensures
            detached == self@.detached,
    {
        self.detached
    }

    /// The waker of whoever awaits the join handle, for the caller to compare
    /// with the waker of the future that polls the handle now.
    pub fn join_waker(&self) -> (waker: Option<&W>)
        ensures
            waker is Some == self@.join_waker() is Some,
            waker matches Some(w) ==> self@.join_waker() == Some(*w),
    {
        match &self.state {
            TaskState::Running(Some(waker)) => Some(waker),
            _ => None,
        }
    }

    /// A wake for the task was received on the owning thread. The result says
    /// whether the caller polls the future now, which is the case exactly if
    /// the task is running and not being polled already. A wake received
    /// during a poll is remembered, and one received after the future
    /// returned ready changes nothing.
    pub fn poll_begin(&mut self) -> (poll: bool)
        ensures
            poll == old(self)@.pollable(),
            final(self)@ == old(self)@.poll_begin(),
            final(self)@.wf(),
    {
        proof {
            use_type_invariant(&*self);
        }
        match self.state {
            TaskState::Running(_) => {
                if self.polling {
                    self.rewake = true;
                    false
                } else {
                    self.polling = true;
                    true
                }
            },
            _ => false,
        }
    }

    /// The poll that `poll_begin` started returned `outcome`. A pending future
    /// stays running, and is scheduled once more if a wake was received
    /// meanwhile. A ready future's output is stored for the join handle, or
    /// dropped if the handle is gone; the waker registered through the handle
    /// is handed out to be woken.
    pub fn poll_end(&mut self, outcome: Poll<T>) -> (next: AfterPoll<W>)
        requires
            old(self)@.polling,
        ensures
            final(self)@ == old(self)@.poll_end(outcome),
            final(self)@.wf(),
            next == old(self)@.after_poll(outcome),
    {
        proof {
            use_type_invariant(&*self);
        }
        let rewake = self.rewake;
        self.rewake = false;
        self.polling = false;
        match outcome {
            Poll::Pending => {
                if rewake {
                    AfterPoll::Reschedule
                } else {
                    AfterPoll::Wait
                }
            },
            Poll::Ready(output) => {
                let mut prev = if self.detached {
                    TaskState::Closed
                } else {
                    TaskState::Completed(output)
                };
                core::mem::swap(&mut self.state, &mut prev);
                match prev {
                    TaskState::Running(waker) => AfterPoll::Finished(waker),
                    _ => AfterPoll::Finished(None),
                }
            },
        }
    }

    /// The task is abandoned: the poll that `poll_begin` started panicked, or
    /// whoever waited for the future gives it up. The task is closed and holds
    /// nothing, so that the message loop can go on if the panic is caught.
    /// The caller drops the future.
    pub fn poll_abandon(&mut self)
        ensures
            final(self)@ == old(self)@.poll_abandon(),
            final(self)@.wf(),
    {
        proof {
            use_type_invariant(&*self);
        }
        self.rewake = false;
        self.polling = false;
        self.state = TaskState::Closed;
    }

    /// The join handle is polled by a future whose waker is `current`. While
    /// the task runs, the result is pending and a waker of that future is
    /// registered: the stored one if `will_wake` says that it wakes the same
    /// future, else `current` in its place. Once the output is stored it is
    /// handed out, and the task is closed. Polling the handle of a closed task
    /// is a contract violation.
    pub fn poll_join(&mut self, current: W, will_wake: bool) -> (output: Poll<T>)
        requires
            old(self)@.state !is Closed,
        ensures
            final(self)@ == old(self)@.poll_join(current, will_wake),
            final(self)@.wf(),
            output == old(self)@.joined(),
    {
        proof {
            use_type_invariant(&*self);
        }
        let keep = match &self.state {
            TaskState::Running(Some(_)) => will_wake,
            _ => false,
        };
        if self.is_running() {
            if !keep {
                self.state = TaskState::Running(Some(current));
            }
            Poll::Pending
        } else {
            let mut prev = TaskState::Closed;
            core::mem::swap(&mut self.state, &mut prev);
            match prev {
                TaskState::Completed(output) => Poll::Ready(output),
                _ => Poll::Pending,
            }
        }
    }

    /// The join handle was dropped. The task is not aborted: it goes on
    /// running and being polled, and its output is dropped when it completes.
    /// An output that is stored already is dropped now.
    pub fn detach(&mut self)
        ensures
            final(self)@ == old(self)@.detach(),
            final(self)@.wf(),
    {
        proof {
            use_type_invariant(&*self);
        }
        if self.is_running() {
            self.state = TaskState::Running(None);
        } else {
            self.state = TaskState::Closed;
        }
        self.detached = true;
    }
}

} // verus!
