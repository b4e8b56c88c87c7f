//! What holds of every life of a task: of every sequence of wakes received,
//! polls returned, and uses of the join handle, in any order that the task's
//! rules admit.

use crate::task::{AfterPoll, Poll, TaskState, TaskView};
use vstd::prelude::*;

verus! {

/// One thing that happens to a task.
pub enum Event<T, W> {
    /// A wake for the task was received on the owning thread.
    Wake,
    /// The poll in progress returned.
    Polled(Poll<T>),
    /// The task was abandoned: the poll in progress panicked, or the future
    /// was given up by whoever waited for it.
    Abandoned,
    /// The join handle was polled by a future with this waker; the flag says
    /// whether the stored waker wakes the same future.
    Joined(W, bool),
    /// The join handle was dropped.
    Detached,
}

/// Whether `event` can happen to `task`: a poll returns only while one is in
/// progress, and the join handle is used only while it exists and has not
/// handed out the output.
pub open spec fn admits<T, W>(task: TaskView<T, W>, event: Event<T, W>) -> bool {
    match event {
        Event::Wake => true,
        Event::Polled(_) => task.polling,
        Event::Abandoned => true,
        Event::Joined(_, _) => !task.detached && task.state !is Closed,
        Event::Detached => !task.detached,
    }
}

/// The task after `event`.
pub open spec fn step<T, W>(task: TaskView<T, W>, event: Event<T, W>) -> TaskView<T, W> {
    match event {
        Event::Wake => task.poll_begin(),
        Event::Polled(outcome) => task.poll_end(outcome),
        Event::Abandoned => task.poll_abandon(),
        Event::Joined(current, will_wake) => task.poll_join(current, will_wake),
        Event::Detached => task.detach(),
    }
}

/// Whether `events` can happen to `task` one after the other.
pub open spec fn admissible<T, W>(task: TaskView<T, W>, events: Seq<Event<T, W>>) -> bool
    decreases events.len(),
{
    events.len() > 0 ==> admits(task, events[0]) && admissible(
        step(task, events[0]),
        events.drop_first(),
    )
}

/// The task after `events`.
pub open spec fn run<T, W>(task: TaskView<T, W>, events: Seq<Event<T, W>>) -> TaskView<T, W>
    decreases events.len(),
{
    if events.len() == 0 {
        task
    } else {
        run(step(task, events[0]), events.drop_first())
    }
}

/// How many wakes are received in `events`.
pub open spec fn wakes<T, W>(events: Seq<Event<T, W>>) -> nat
    decreases events.len(),
{
    if events.len() == 0 {
        0
    } else {
        (if events[0] is Wake {
            1nat
        } else {
            0nat
        }) + wakes(events.drop_first())
    }
}

/// How many wakes in `events` are received while the task runs and is not
/// being polled.
pub open spec fn edge_wakes<T, W>(task: TaskView<T, W>, events: Seq<Event<T, W>>) -> nat
    decreases events.len(),
{
    if events.len() == 0 {
        0
    } else {
        (if events[0] is Wake && task.pollable() {
            1nat
        } else {
            0nat
        }) + edge_wakes(step(task, events[0]), events.drop_first())
    }
}

/// How many polls of the future come to an end in `events`, by returning or
/// by the task being abandoned during the poll.
pub open spec fn polls_ended<T, W>(task: TaskView<T, W>, events: Seq<Event<T, W>>) -> nat
    decreases events.len(),
{
    if events.len() == 0 {
        0
    } else {
        (if events[0] is Polled || (events[0] is Abandoned && task.polling) {
            1nat
        } else {
            0nat
        }) + polls_ended(step(task, events[0]), events.drop_first())
    }
}

/// One if a poll of the future is in progress, else zero.
pub open spec fn in_progress<T, W>(task: TaskView<T, W>) -> nat {
    if task.polling {
        1
    } else {
        0
    }
}

/// How often polling the join handle returns ready in `events`.
pub open spec fn observations<T, W>(task: TaskView<T, W>, events: Seq<Event<T, W>>) -> nat
    decreases events.len(),
{
    if events.len() == 0 {
        0
    } else {
        (if events[0] is Joined && task.state is Completed {
            1nat
        } else {
            0nat
        }) + observations(step(task, events[0]), events.drop_first())
    }
}

/// Whether `events` leave the join handle alone.
pub open spec fn handle_untouched<T, W>(events: Seq<Event<T, W>>) -> bool {
    forall|i: int| 0 <= i < events.len() ==> !(#[trigger] events[i] is Joined) && !(events[i] is Detached)
}

/// Every event that a well-formed task admits leaves it well formed.
pub proof fn lemma_step_wf<T, W>(task: TaskView<T, W>, event: Event<T, W>)
    requires
        task.wf(),
        admits(task, event),
    ensures
        step(task, event).wf(),
{
}

/// A task never goes back: once it has left the running state it does not
/// run again, and once closed it stays closed.
pub proof fn lemma_step_forward<T, W>(task: TaskView<T, W>, event: Event<T, W>)
    requires
        task.wf(),
        admits(task, event),
    ensures
        step(task, event).state is Running ==> task.state is Running,
        task.state is Closed ==> step(task, event).state is Closed,
        step(task, event).target == task.target,
{
}

/// A task is closed for one of four reasons only: its output was taken
/// through the join handle; the future returned ready when the handle was
/// gone; the handle was dropped while the output was stored; or the task was
/// abandoned.
pub proof fn lemma_closed_for_a_reason<T, W>(task: TaskView<T, W>, event: Event<T, W>)
    requires
        task.wf(),
        admits(task, event),
        task.state !is Closed,
        step(task, event).state is Closed,
    ensures
        ({
            ||| event is Joined && task.state is Completed
            ||| event matches Event::Polled(Poll::Ready(_)) && task.detached
            ||| event is Detached && task.state is Completed
            ||| event is Abandoned
        }),
{
}

/// Every sequence of events that a well-formed task admits leaves it well
/// formed.
pub proof fn lemma_run_wf<T, W>(task: TaskView<T, W>, events: Seq<Event<T, W>>)
    requires
        task.wf(),
        admissible(task, events),
    ensures
        run(task, events).wf(),
    decreases events.len(),
{
    if events.len() > 0 {
        lemma_step_wf(task, events[0]);
        lemma_run_wf(step(task, events[0]), events.drop_first());
    }
}

/// In every life of a task, the polls of its future (those that came to an
/// end and the one in progress) are exactly the wakes that were received
/// while the task was running and not being polled, counting the poll that
/// was in progress at the start. So there are at most as many polls as wakes
/// received.
pub proof fn lemma_polls_are_edge_wakes<T, W>(task: TaskView<T, W>, events: Seq<Event<T, W>>)
    requires
        task.wf(),
        admissible(task, events),
    ensures
        polls_ended(task, events) + in_progress(run(task, events)) == in_progress(task)
            + edge_wakes(task, events),
        edge_wakes(task, events) <= wakes(events),
    decreases events.len(),
{
    if events.len() > 0 {
        lemma_step_wf(task, events[0]);
        lemma_polls_are_edge_wakes(step(task, events[0]), events.drop_first());
    }
}

/// From `spawn` on, the future is polled at most as often as wakes for the
/// task were received, the first of which is the one that `spawn` schedules,
/// and at least as often as a wake was received while the task was running
/// and not being polled.
pub proof fn lemma_poll_count<T, W>(target: crate::backend::WakeTarget, events: Seq<Event<T, W>>)
    requires
        admissible(TaskView::<T, W>::spawned(target), events),
    ensures
        ({
            let task = TaskView::<T, W>::spawned(target);
            let polls = polls_ended(task, events) + in_progress(run(task, events));
            &&& polls <= wakes(events)
            &&& polls >= edge_wakes(task, events)
        }),
{
    lemma_polls_are_edge_wakes(TaskView::<T, W>::spawned(target), events);
}

/// No poll of the future starts while another is in progress: a wake that is
/// received during a poll starts none.
pub proof fn lemma_one_poll_at_a_time<T, W>(task: TaskView<T, W>)
    requires
        task.wf(),
        task.polling,
    ensures
        !task.pollable(),
        task.poll_begin().polling,
{
}

/// In every life of a task, polling the join handle returns ready at most
/// once, and never for a task that is closed.
pub proof fn lemma_one_observation<T, W>(task: TaskView<T, W>, events: Seq<Event<T, W>>)
    requires
        task.wf(),
        admissible(task, events),
    ensures
        observations(task, events) <= 1,
        task.state is Closed ==> observations(task, events) == 0,
    decreases events.len(),
{
    if events.len() > 0 {
        let next = step(task, events[0]);
        lemma_step_wf(task, events[0]);
        lemma_step_forward(task, events[0]);
        lemma_one_observation(next, events.drop_first());
        if events[0] is Joined && task.state is Completed {
            assert(next.state is Closed);
        }
    }
}

/// A future that returns ready while its join handle lives has its output
/// stored and the registered waker handed out to be woken. The next poll of
/// the handle returns that output and closes the task, after which the handle
/// cannot be polled again.
pub proof fn lemma_join_after_ready<T, W>(
    task: TaskView<T, W>,
    output: T,
    current: W,
    will_wake: bool,
)
    requires
        task.wf(),
        task.polling,
        !task.detached,
    ensures
        ({
            let done = task.poll_end(Poll::Ready(output));
            let taken = done.poll_join(current, will_wake);
            &&& task.after_poll(Poll::Ready(output)) == AfterPoll::Finished(task.join_waker())
            &&& done.state == TaskState::<T, W>::Completed(output)
            &&& done.joined() == Poll::Ready(output)
            &&& taken.state is Closed
            &&& !admits(taken, Event::Joined(current, will_wake))
        }),
{
}

/// While the future has not returned ready, polling the join handle returns
/// pending and leaves a waker registered.
pub proof fn lemma_join_before_ready<T, W>(task: TaskView<T, W>, current: W, will_wake: bool)
    requires
        task.wf(),
        task.state is Running,
    ensures
        task.joined() is Pending,
        task.poll_join(current, will_wake).join_waker() == if will_wake
            && task.join_waker() is Some {
            task.join_waker()
        } else {
            Some(current)
        },
{
}

/// Dropping the join handle does not abort the task. It stays running,
/// whether it is being polled or has a wake held back is unchanged, and so a
/// wake starts a poll exactly as before. When the future returns ready
/// afterwards, the output is dropped: the task is closed at once.
pub proof fn lemma_detach_keeps_running<T, W>(task: TaskView<T, W>, output: T)
    requires
        task.wf(),
        task.state is Running,
    ensures
        task.detach().wf(),
        task.detach().state is Running,
        task.detach().polling == task.polling,
        task.detach().rewake == task.rewake,
        task.detach().pollable() == task.pollable(),
        task.detach().poll_end(Poll::Ready(output)).state is Closed,
        task.detach().after_poll(Poll::Ready(output)) == AfterPoll::<W>::Finished(None),
{
}

/// Whether two tasks are at the same point of being driven: both running or
/// both not, with the same poll in progress and the same wake held back.
pub open spec fn same_progress<T, W>(a: TaskView<T, W>, b: TaskView<T, W>) -> bool {
    &&& a.state is Running == b.state is Running
    &&& a.polling == b.polling
    &&& a.rewake == b.rewake
}

/// A task whose join handle was dropped is driven exactly as it would have
/// been with the handle alive: after the same wakes and polls, both are at
/// the same point, the same wakes have started a poll, and the same polls
/// ask for another wake.
pub proof fn lemma_detached_is_driven_alike<T, W>(
    kept: TaskView<T, W>,
    dropped: TaskView<T, W>,
    events: Seq<Event<T, W>>,
)
    requires
        kept.wf(),
        dropped.wf(),
        same_progress(kept, dropped),
        handle_untouched(events),
        admissible(kept, events),
    ensures
        admissible(dropped, events),
        same_progress(run(kept, events), run(dropped, events)),
        edge_wakes(kept, events) == edge_wakes(dropped, events),
    decreases events.len(),
{
    if events.len() > 0 {
        let rest = events.drop_first();
        assert(!(events[0] is Joined) && !(events[0] is Detached));
        assert forall|i: int| 0 <= i < rest.len() implies !(#[trigger] rest[i] is Joined) && !(
        rest[i] is Detached) by {
            assert(rest[i] == events[i + 1]);
        }
        lemma_step_wf(kept, events[0]);
        lemma_step_wf(dropped, events[0]);
        lemma_detached_is_driven_alike(step(kept, events[0]), step(dropped, events[0]), rest);
    }
}

/// Whether every event of `events` is a wake or a use of the join handle: no
/// poll comes to an end in them.
pub open spec fn no_poll_ends<T, W>(events: Seq<Event<T, W>>) -> bool {
    forall|i: int| 0 <= i < events.len() ==> !(#[trigger] events[i] is Polled) && !(
    events[i] is Abandoned)
}

/// A wake for a running task is not lost. Either it starts a poll at once,
/// or a poll is in progress; then, whatever else happens before that poll
/// returns, a pending result asks for another wake to be posted.
pub proof fn lemma_wake_is_not_lost<T, W>(task: TaskView<T, W>, events: Seq<Event<T, W>>)
    requires
        task.wf(),
        task.state is Running,
        admissible(task.poll_begin(), events),
        no_poll_ends(events),
    ensures
        task.pollable() || task.polling,
        task.pollable() ==> task.poll_begin().polling,
        task.polling ==> run(task.poll_begin(), events).polling && run(
            task.poll_begin(),
            events,
        ).after_poll(Poll::Pending) == AfterPoll::<W>::Reschedule,
{
    if task.polling {
        lemma_held_wake_stays(task.poll_begin(), events);
    }
}

/// While no poll comes to an end, a poll in progress stays in progress and a
/// wake that is held back stays held back.
pub proof fn lemma_held_wake_stays<T, W>(task: TaskView<T, W>, events: Seq<Event<T, W>>)
    requires
        task.wf(),
        task.polling,
        task.rewake,
        admissible(task, events),
        no_poll_ends(events),
    ensures
        run(task, events).polling,
        run(task, events).rewake,
    decreases events.len(),
{
    if events.len() > 0 {
        let rest = events.drop_first();
        assert(!(events[0] is Polled) && !(events[0] is Abandoned));
        assert forall|i: int| 0 <= i < rest.len() implies !(#[trigger] rest[i] is Polled) && !(
        rest[i] is Abandoned) by {
            assert(rest[i] == events[i + 1]);
        }
        lemma_step_wf(task, events[0]);
        lemma_held_wake_stays(step(task, events[0]), rest);
    }
}

} // verus!
