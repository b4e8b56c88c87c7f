//! A thread that runs `block_on`, as a transition system: its message queue,
//! the task that wraps the future, and the message loop. The transitions are
//! those of the library's own functions; what is added is the queue, which
//! the operating system keeps, and the order in which things happen.

use crate::backend::{thread_queue, window, WakeTarget};
use crate::message::Msg;
use crate::message_loop::{spec_block_on, QuitMessageLoop};
use crate::task::{AfterPoll, Poll, TaskState, TaskView};
use crate::util::msg_filter_hook::{spec_hook_reply, HookReply};
use vstd::prelude::*;

verus! {

/// What waits in a thread's queue.
pub enum Queued {
    /// The quit sentinel, for which fetching returns zero.
    Quit,
    /// A message, for which fetching returns one.
    Message(Msg),
}

/// The thread while `block_on` runs.
pub struct System<T, W> {
    /// The queue, head first. Messages are taken at the head and added at the
    /// back, by any thread.
    pub queue: Seq<Queued>,
    /// The task that wraps the future of `block_on`.
    pub task: TaskView<T, W>,
    /// The word that stands for the task in its wakes.
    pub payload: isize,
    /// The message loop has fetched the quit sentinel and returned.
    pub exited: bool,
    /// The output of the future, once it has returned ready.
    pub output: Option<T>,
}

/// Who takes a message from the queue.
pub enum Loop {
    /// The executor's own message loop.
    Executor,
    /// A loop that the system runs on the thread while a modal window or a
    /// menu is open; the code tells the hook which kind.
    Modal(i32),
}

/// One thing that happens on or to the thread.
pub enum Step<T> {
    /// Some thread posts a message: a wake for any task, or anything else.
    Post(Msg),
    /// Some thread asks the message loop to quit.
    Quit,
    /// A message loop on the thread takes the message at the head of the
    /// queue and runs it through the filter hook. The quit sentinel ends the
    /// executor's loop; a modal loop that meets it asks anew for the quit and
    /// ends itself.
    Fetch(Loop),
    /// The poll in progress returns pending.
    Pending,
    /// The future returns ready inside the poll in progress: the wrapper asks
    /// the message loop to quit and returns the output.
    Complete(T),
}

impl<T, W> System<T, W> {
    /// The thread right after `block_on` has spawned its task and scheduled
    /// the first poll, behind the messages of `queue` that were waiting.
    pub open spec fn start(queue: Seq<Queued>, target: WakeTarget, payload: isize) -> Self {
        System {
            queue: queue.push(Queued::Message(target.spec_wake_message(payload))),
            task: TaskView::spawned(target),
            payload,
            exited: false,
            output: None,
        }
    }

    /// Whether `msg` is a wake for the task.
    pub open spec fn wakes_task(self, msg: Msg) -> bool {
        self.task.target.spec_received(&msg) == Some(self.payload)
    }

    /// Whether `step` can happen: a message is fetched only while the loop
    /// runs and the queue is not empty, and a poll returns only while one is
    /// in progress.
    pub open spec fn admits(self, step: Step<T>) -> bool {
        match step {
            Step::Post(_) => true,
            Step::Quit => true,
            Step::Fetch(_) => !self.exited && self.queue.len() > 0,
            Step::Pending => self.task.polling,
            Step::Complete(_) => self.task.polling,
        }
    }

    /// The thread after `step`.
    pub open spec fn step(self, step: Step<T>) -> Self {
        match step {
            Step::Post(msg) => System { queue: self.queue.push(Queued::Message(msg)), ..self },
            Step::Quit => System { queue: self.queue.push(Queued::Quit), ..self },
            Step::Fetch(by) => match self.queue[0] {
                Queued::Quit => match by {
                    Loop::Executor => System {
                        queue: self.queue.drop_first(),
                        exited: true,
                        ..self
                    },
                    Loop::Modal(_) => System {
                        queue: self.queue.drop_first().push(Queued::Quit),
                        ..self
                    },
                },
                Queued::Message(msg) => System {
                    queue: self.queue.drop_first(),
                    task: if self.wakes_task(msg) {
                        self.task.poll_begin()
                    } else {
                        self.task
                    },
                    ..self
                },
            },
            Step::Pending => System {
                queue: if self.task.after_poll(Poll::Pending) is Reschedule {
                    self.queue.push(
                        Queued::Message(self.task.target.spec_wake_message(self.payload)),
                    )
                } else {
                    self.queue
                },
                task: self.task.poll_end(Poll::Pending),
                ..self
            },
            Step::Complete(output) => System {
                queue: self.queue.push(Queued::Quit),
                task: self.task.poll_end(Poll::Ready(output)),
                output: Some(output),
                ..self
            },
        }
    }

    /// Whether `steps` can happen one after the other.
    pub open spec fn admits_all(self, steps: Seq<Step<T>>) -> bool
        decreases steps.len(),
    {
        steps.len() > 0 ==> self.admits(steps[0]) && self.step(steps[0]).admits_all(
            steps.drop_first(),
        )
    }

    /// The thread after `steps`.
    pub open spec fn run(self, steps: Seq<Step<T>>) -> Self
        decreases steps.len(),
    {
        if steps.len() == 0 {
            self
        } else {
            self.step(steps[0]).run(steps.drop_first())
        }
    }

    /// Whether nobody asks the loop to quit in `steps` before the future has
    /// returned ready.
    pub open spec fn quits_after_output(self, steps: Seq<Step<T>>) -> bool
        decreases steps.len(),
    {
        steps.len() > 0 ==> (steps[0] is Quit ==> self.output is Some) && self.step(
            steps[0],
        ).quits_after_output(steps.drop_first())
    }

    /// The task is well formed, its join handle is held by `block_on` and
    /// unused, and the task stores the output exactly once the future has
    /// returned it.
    pub open spec fn inv(self) -> bool {
        &&& self.task.wf()
        &&& !self.task.detached
        &&& match self.output {
            Some(output) => self.task.state == TaskState::<T, W>::Completed(output),
            None => self.task.state is Running,
        }
    }

    /// A request to quit is under way or has been met.
    pub open spec fn quitting(self) -> bool {
        self.exited || exists|i: int| 0 <= i < self.queue.len() && self.queue[i] is Quit
    }

    /// What `block_on` returns when its message loop has returned.
    pub open spec fn result(self) -> Result<T, QuitMessageLoop> {
        spec_block_on(self.task)
    }
}

/// How many messages are fetched in `steps`.
pub open spec fn fetches<T>(steps: Seq<Step<T>>) -> nat
    decreases steps.len(),
{
    if steps.len() == 0 {
        0
    } else {
        (if steps[0] is Fetch {
            1nat
        } else {
            0nat
        }) + fetches(steps.drop_first())
    }
}

/// The thread's invariant holds when `block_on` has spawned its task.
pub proof fn lemma_start_inv<T, W>(queue: Seq<Queued>, target: WakeTarget, payload: isize)
    ensures
        System::<T, W>::start(queue, target, payload).inv(),
{
}

/// Every step keeps the thread's invariant.
pub proof fn lemma_step_inv<T, W>(system: System<T, W>, step: Step<T>)
    requires
        system.inv(),
        system.admits(step),
    ensures
        system.step(step).inv(),
{
}

/// Every sequence of steps keeps the thread's invariant.
pub proof fn lemma_run_inv<T, W>(system: System<T, W>, steps: Seq<Step<T>>)
    requires
        system.inv(),
        system.admits_all(steps),
    ensures
        system.run(steps).inv(),
    decreases steps.len(),
{
    if steps.len() > 0 {
        lemma_step_inv(system, steps[0]);
        lemma_run_inv(system.step(steps[0]), steps.drop_first());
    }
}

/// Whatever happens while `block_on` runs, it returns the output of its
/// future if the future has returned ready, and the error that says that the
/// loop was quit if it has not.
pub proof fn lemma_block_on_result<T, W>(
    queue: Seq<Queued>,
    target: WakeTarget,
    payload: isize,
    steps: Seq<Step<T>>,
)
    requires
        System::<T, W>::start(queue, target, payload).admits_all(steps),
    ensures
        ({
            let end = System::<T, W>::start(queue, target, payload).run(steps);
            end.result() == match end.output {
                Some(output) => Ok(output),
                None => Err(QuitMessageLoop),
            }
        }),
{
    let start = System::<T, W>::start(queue, target, payload);
    lemma_start_inv::<T, W>(queue, target, payload);
    lemma_run_inv(start, steps);
}

/// While nobody asks the loop to quit before the future has returned ready,
/// a request to quit is under way only once the output is there.
pub proof fn lemma_quit_waits_for_output<T, W>(system: System<T, W>, steps: Seq<Step<T>>)
    requires
        system.inv(),
        system.quitting() ==> system.output is Some,
        system.admits_all(steps),
        system.quits_after_output(steps),
    ensures
        system.run(steps).quitting() ==> system.run(steps).output is Some,
    decreases steps.len(),
{
    if steps.len() > 0 {
        let next = system.step(steps[0]);
        lemma_step_inv(system, steps[0]);
        if next.quitting() && !next.exited {
            let i = choose|i: int| 0 <= i < next.queue.len() && next.queue[i] is Quit;
            match steps[0] {
                Step::Post(_) => {
                    assert(system.queue[i] is Quit);
                },
                Step::Quit => {},
                Step::Fetch(_) => {
                    if i + 1 < system.queue.len() {
                        assert(system.queue[i + 1] is Quit);
                    } else {
                        assert(system.queue[0] is Quit);
                    }
                },
                Step::Pending => {
                    assert(system.queue[i] is Quit);
                },
                Step::Complete(_) => {},
            }
        } else if next.exited && !system.exited {
            assert(system.queue[0] is Quit);
        }
        lemma_quit_waits_for_output(next, steps.drop_first());
    }
}

/// `block_on` returns the output of its future whenever the future returns
/// ready before anyone asks the loop to quit: no message was waiting that
/// asks for it, nobody asks before the output is there, and the loop has
/// returned, which it does only on such a request.
pub proof fn lemma_block_on_returns_output<T, W>(
    queue: Seq<Queued>,
    target: WakeTarget,
    payload: isize,
    steps: Seq<Step<T>>,
)
    requires
        forall|i: int| 0 <= i < queue.len() ==> !(#[trigger] queue[i] is Quit),
        System::<T, W>::start(queue, target, payload).admits_all(steps),
        System::<T, W>::start(queue, target, payload).quits_after_output(steps),
        System::<T, W>::start(queue, target, payload).run(steps).exited,
    ensures
        ({
            let end = System::<T, W>::start(queue, target, payload).run(steps);
            &&& end.output is Some
            &&& end.result() == Ok::<T, QuitMessageLoop>(end.output->0)
        }),
{
    let start = System::<T, W>::start(queue, target, payload);
    lemma_start_inv::<T, W>(queue, target, payload);
    assert(!start.quitting());
    lemma_quit_waits_for_output(start, steps);
    lemma_run_inv(start, steps);
}

/// The queue is first in, first out, whoever posts: once as many messages
/// have been fetched as were waiting before a message, that message is at
/// the head, whatever was posted meanwhile.
pub proof fn lemma_first_in_first_out<T, W>(system: System<T, W>, ahead: int, steps: Seq<Step<T>>)
    requires
        0 <= ahead < system.queue.len(),
        system.admits_all(steps),
        fetches(steps) == ahead,
    ensures
        system.run(steps).queue.len() > 0,
        system.run(steps).queue[0] == system.queue[ahead],
    decreases steps.len(),
{
    if steps.len() > 0 {
        let next = system.step(steps[0]);
        if steps[0] is Fetch {
            assert(next.queue[ahead - 1] == system.queue[ahead]);
            lemma_first_in_first_out(next, ahead - 1, steps.drop_first());
        } else {
            assert(next.queue.len() >= system.queue.len());
            assert(next.queue[ahead] == system.queue[ahead]);
            lemma_first_in_first_out(next, ahead, steps.drop_first());
        }
    }
}

/// A wake that any thread posts for the task reaches it: when the messages
/// that were waiting before it have been fetched, the wake is at the head,
/// and fetching it, if the task still runs, starts a poll of the future or
/// finds one in progress, which will then ask for another wake.
pub proof fn lemma_posted_wake_arrives<T, W>(
    system: System<T, W>,
    steps: Seq<Step<T>>,
    by: Loop,
)
    requires
        system.inv(),
        ({
            let posted = system.step(Step::Post(system.task.target.spec_wake_message(system.payload)));
            &&& posted.admits_all(steps)
            &&& fetches(steps) == system.queue.len()
            &&& !posted.run(steps).exited
            &&& posted.run(steps).task.state is Running
        }),
    ensures
        ({
            let wake = system.task.target.spec_wake_message(system.payload);
            let arrived = system.step(Step::Post(wake)).run(steps);
            let taken = arrived.step(Step::Fetch(by));
            &&& arrived.admits(Step::Fetch(by))
            &&& arrived.queue[0] == Queued::Message(wake)
            &&& taken.task == arrived.task.poll_begin()
            &&& taken.task.polling
            &&& arrived.task.polling ==> taken.task.after_poll(Poll::Pending)
                == AfterPoll::<W>::Reschedule
        }),
{
    let wake = system.task.target.spec_wake_message(system.payload);
    let posted = system.step(Step::Post(wake));
    lemma_step_inv(system, Step::Post(wake));
    lemma_first_in_first_out(posted, system.queue.len() as int, steps);
    lemma_run_inv(posted, steps);
    lemma_run_keeps_identity(posted, steps);
    let arrived = posted.run(steps);
    arrived.task.target.lemma_wake_round_trip(arrived.payload);
}

/// Tasks go on being polled while a modal loop of the system runs on the
/// thread. Such a loop takes the messages itself and asks the filter hook
/// about each. For a wake over the thread's queue the hook's filter runs the
/// task and the hook answers that the message is handled, whichever kind of
/// loop asks and whatever the user's filter would say. A wake over the task's
/// window is passed on by the hook unless the user's filter handles it, and
/// the loop dispatches it to the window procedure, which runs the task.
/// Either way a poll of a running task starts unless one is in progress.
pub proof fn lemma_modal_loop_polls<T, W, P>(system: System<T, W>, code: i32, user: bool)
    requires
        system.inv(),
        system.task.state is Running,
        system.admits(Step::Fetch(Loop::Modal(code))),
        system.queue[0] == Queued::Message(system.task.target.spec_wake_message(system.payload)),
    ensures
        ({
            let wake = system.task.target.spec_wake_message(system.payload);
            let taken = system.step(Step::Fetch(Loop::Modal(code)));
            &&& taken == system.step(Step::Fetch(Loop::Executor))
            &&& taken.task == system.task.poll_begin()
            &&& taken.task.polling
            &&& system.task.target is Thread ==> thread_queue::spec_dispatch(&wake) == Some(
                system.payload,
            ) && spec_hook_reply::<P>(Ok(thread_queue::spec_dispatch(&wake) is Some || user))
                == HookReply::Handled
            &&& system.task.target is Window && !user ==> spec_hook_reply::<P>(
                Ok(window::spec_dispatch(&wake) is Some || user),
            ) == HookReply::CallNext && window::spec_wndproc(&wake.spec_delivered()).run == Some(
                system.payload,
            )
        }),
{
    system.task.target.lemma_wake_round_trip(system.payload);
}

/// The task's wake channel and payload word never change.
pub proof fn lemma_run_keeps_identity<T, W>(system: System<T, W>, steps: Seq<Step<T>>)
    requires
        system.admits_all(steps),
    ensures
        system.run(steps).task.target == system.task.target,
        system.run(steps).payload == system.payload,
    decreases steps.len(),
{
    if steps.len() > 0 {
        lemma_run_keeps_identity(system.step(steps[0]), steps.drop_first());
    }
}

} // verus!
