//! Whole runs of the executor against a message queue kept in memory. The
//! queue, the window table and the calls of futures stand where the operating
//! system and the host program stand; every decision is the library's.

use std::any::Any;
use std::cell::{Cell, RefCell};
use std::collections::{HashMap, VecDeque};
use std::future::{poll_fn, Future};
use std::pin::Pin;
use std::rc::Rc;
use std::sync::{Arc, Mutex};
use std::task::{Context, Wake, Waker};

use winmsg_executor::backend::{thread_queue, window};
use winmsg_executor::util::{hook_proc, wndproc_typed, MsgFilterHook, Reply};
use winmsg_executor::{
    block_on, fetched, filter, forwards, spawn, AfterPoll, Fetched, Msg, Poll, QuitMessageLoop,
    Task, ThreadState, Verdict, WakeTarget,
};

const THREAD_ID: u32 = 4711;
const MSGF_DIALOGBOX: i32 = 0;
const MSGF_MENU: i32 = 2;

#[derive(Debug, Clone, Copy, PartialEq, Eq)]
enum Backend {
    ThreadQueue,
    Window,
}

#[derive(Debug, Clone, Copy, PartialEq, Eq)]
enum Queued {
    Quit,
    Message(Msg),
}

type Queue = Arc<Mutex<VecDeque<Queued>>>;

struct TaskWaker {
    queue: Queue,
    target: WakeTarget,
    payload: isize,
}

impl Wake for TaskWaker {
    fn wake(self: Arc<Self>) {
        self.wake_by_ref();
    }

    fn wake_by_ref(self: &Arc<Self>) {
        let msg = self.target.wake_message(self.payload);
        self.queue.lock().unwrap().push_back(Queued::Message(msg));
    }
}

struct NoopWaker;

impl Wake for NoopWaker {
    fn wake(self: Arc<Self>) {}
}

trait Runnable {
    fn run(&self);
    fn wakes_received(&self) -> usize;
    fn polls(&self) -> usize;
}

struct TaskCell<T> {
    task: RefCell<Task<T, Waker>>,
    future: RefCell<Option<Pin<Box<dyn Future<Output = T>>>>>,
    waker: Waker,
    wakes_received: Cell<usize>,
    polls: Cell<usize>,
}

impl<T> Runnable for TaskCell<T> {
    fn run(&self) {
        self.wakes_received.set(self.wakes_received.get() + 1);
        if !self.task.borrow_mut().poll_begin() {
            return;
        }
        self.polls.set(self.polls.get() + 1);
        let outcome = {
            let mut slot = self.future.borrow_mut();
            let future = slot.as_mut().expect("a running task holds its future");
            let polled = future.as_mut().poll(&mut Context::from_waker(&self.waker));
            match polled {
                std::task::Poll::Ready(output) => {
                    *slot = None;
                    Poll::Ready(output)
                }
                std::task::Poll::Pending => Poll::Pending,
            }
        };
        assert!(self.task.borrow().is_polling());
        let after = self.task.borrow_mut().poll_end(outcome);
        match after {
            AfterPoll::Wait => {}
            AfterPoll::Reschedule => self.waker.wake_by_ref(),
            AfterPoll::Finished(Some(join_waker)) => join_waker.wake(),
            AfterPoll::Finished(None) => {}
        }
    }

    fn wakes_received(&self) -> usize {
        self.wakes_received.get()
    }

    fn polls(&self) -> usize {
        self.polls.get()
    }
}

struct JoinHandle<T> {
    cell: Rc<TaskCell<T>>,
}

impl<T> Future for JoinHandle<T> {
    type Output = T;

    fn poll(self: Pin<&mut Self>, cx: &mut Context<'_>) -> std::task::Poll<T> {
        let mut task = self.cell.task.borrow_mut();
        assert!(!task.is_closed(), "future polled after ready");
        let keep = match task.join_waker() {
            Some(stored) => stored.will_wake(cx.waker()),
            None => false,
        };
        match task.poll_join(cx.waker().clone(), keep) {
            Poll::Ready(output) => std::task::Poll::Ready(output),
            Poll::Pending => std::task::Poll::Pending,
        }
    }
}

impl<T> Drop for JoinHandle<T> {
    fn drop(&mut self) {
        self.cell.task.borrow_mut().detach();
    }
}

struct Sim {
    backend: Backend,
    queue: Queue,
    thread: RefCell<ThreadState<Box<dyn Any + Send>>>,
    tasks: RefCell<HashMap<isize, Rc<dyn Runnable>>>,
    task_windows: RefCell<Vec<isize>>,
    next_id: Cell<isize>,
    forwarded: RefCell<Vec<Msg>>,
    dropped: RefCell<Vec<Msg>>,
    filter: RefCell<Rc<dyn Fn(&Msg) -> bool>>,
}

impl Sim {
    fn new(backend: Backend) -> Rc<Sim> {
        Rc::new(Sim {
            backend,
            queue: Arc::new(Mutex::new(VecDeque::new())),
            thread: RefCell::new(ThreadState::new()),
            tasks: RefCell::new(HashMap::new()),
            task_windows: RefCell::new(Vec::new()),
            next_id: Cell::new(0x1000),
            forwarded: RefCell::new(Vec::new()),
            dropped: RefCell::new(Vec::new()),
            filter: RefCell::new(Rc::new(|_| false)),
        })
    }

    fn post(&self, msg: Msg) {
        self.queue.lock().unwrap().push_back(Queued::Message(msg));
    }

    fn quit_message_loop(&self) {
        self.queue.lock().unwrap().push_back(Queued::Quit);
    }

    fn pending(&self) -> usize {
        self.queue.lock().unwrap().len()
    }

    /// Stands for the blocking fetch: zero for the quit sentinel, one for a
    /// message. A test whose queue runs dry would block forever.
    fn get_message(&self) -> (i32, Option<Msg>) {
        let head = self.queue.lock().unwrap().pop_front();
        match head.expect("the queue is empty and nothing can fill it") {
            Queued::Quit => (0, None),
            Queued::Message(msg) => (1, Some(msg)),
        }
    }

    fn spawn<T: 'static>(
        self: &Rc<Self>,
        future: impl Future<Output = T> + 'static,
    ) -> JoinHandle<T> {
        let payload = self.next_id.get();
        self.next_id.set(payload + 0x10);
        let target = match self.backend {
            Backend::ThreadQueue => WakeTarget::Thread(THREAD_ID),
            Backend::Window => {
                let hwnd = payload + 1;
                self.task_windows.borrow_mut().push(hwnd);
                WakeTarget::Window(hwnd)
            }
        };
        let (task, first) = spawn::<T, Waker>(target, payload);
        let waker = Waker::from(Arc::new(TaskWaker {
            queue: self.queue.clone(),
            target,
            payload,
        }));
        let cell = Rc::new(TaskCell {
            task: RefCell::new(task),
            future: RefCell::new(Some(Box::pin(future) as Pin<Box<dyn Future<Output = T>>>)),
            waker,
            wakes_received: Cell::new(0),
            polls: Cell::new(0),
        });
        self.tasks
            .borrow_mut()
            .insert(payload, cell.clone() as Rc<dyn Runnable>);
        self.post(first);
        JoinHandle { cell }
    }

    fn run_task(&self, payload: isize) {
        let task = self.tasks.borrow().get(&payload).cloned();
        task.expect("a wake carries the payload of a task").run();
    }

    /// The filter that the message loop registers with the hook: the wake
    /// recogniser first, then the host's own filter.
    fn filter(&self, msg: &Msg) -> bool {
        let wake = match self.backend {
            Backend::ThreadQueue => thread_queue::dispatch(msg),
            Backend::Window => window::dispatch(msg),
        };
        let user = self.filter.borrow().clone();
        let verdict = filter(wake, || user(msg));
        match verdict {
            Verdict::Run(payload) => self.run_task(payload),
            Verdict::Discard => self.dropped.borrow_mut().push(*msg),
            Verdict::Forward => {}
        }
        verdict.handled()
    }

    /// Stands for the system's call of the registered hook, from any loop.
    fn call_msg_filter(&self, msg: &Msg, code: i32) -> i32 {
        if !self.thread.borrow().is_hooked() {
            return 0;
        }
        let handled = self.filter(msg);
        let reply = hook_proc(&mut *self.thread.borrow_mut(), code, Ok(handled));
        match reply.result() {
            Some(result) => result as i32,
            None => 0,
        }
    }

    /// Stands for the system's dispatch: a message for a task's window goes to
    /// its window procedure, the rest to the default procedure.
    fn dispatch_message(&self, msg: &Msg) {
        if self.task_windows.borrow().contains(&msg.hwnd) {
            let step = window::wndproc(&msg.delivered());
            if let Some(payload) = step.run {
                self.run_task(payload);
            }
            let typed = wndproc_typed(msg.message, step.ret);
            assert!(!typed.release);
            if typed.reply != Reply::Default {
                return;
            }
        }
        self.forwarded.borrow_mut().push(*msg);
    }

    fn run_message_loop(self: &Rc<Self>) {
        assert!(
            self.thread.borrow_mut().enter(),
            "a message loop is running already"
        );
        assert!(self.thread.borrow_mut().reserve_hook());
        let hook = MsgFilterHook::register(&mut *self.thread.borrow_mut(), 0x7001)
            .expect("the hook is registered");
        loop {
            let (ret, msg) = self.get_message();
            assert!(ret == 0 || ret == 1);
            match fetched(ret) {
                Fetched::Quit => break,
                Fetched::Message => {
                    let msg = msg.unwrap();
                    if forwards(self.call_msg_filter(&msg, 0)) {
                        self.dispatch_message(&msg);
                    }
                }
            }
            assert!(self.thread.borrow_mut().take_panic().is_none());
        }
        let handle = hook.unregister(&mut *self.thread.borrow_mut());
        assert_eq!(handle, 0x7001);
        assert!(self.thread.borrow().is_running());
        assert!(!self.thread.borrow().is_hooked());
        self.thread.borrow_mut().leave();
    }

    /// Stands for a modal window of the system: a loop of its own that takes
    /// the thread's messages until `closed` is set, and asks the hook about
    /// each of them.
    fn modal_loop(&self, code: i32, closed: &Cell<bool>) {
        while !closed.get() {
            let (ret, msg) = self.get_message();
            if ret == 0 {
                self.quit_message_loop();
                return;
            }
            let msg = msg.unwrap();
            if self.call_msg_filter(&msg, code) == 0 {
                self.dispatch_message(&msg);
            }
        }
    }

    fn block_on<T: 'static>(
        self: &Rc<Self>,
        future: impl Future<Output = T> + 'static,
    ) -> Result<T, QuitMessageLoop> {
        let sim = self.clone();
        let handle = self.spawn(async move {
            let output = future.await;
            sim.quit_message_loop();
            output
        });
        self.run_message_loop();
        let noop = Waker::from(Arc::new(NoopWaker));
        assert!(!handle.cell.task.borrow().is_closed());
        let result = block_on(&mut *handle.cell.task.borrow_mut(), noop);
        handle.cell.future.borrow_mut().take();
        result
    }
}

/// A future that returns pending `n` times, waking itself each time, and
/// counts how often it is polled.
fn yield_times(n: usize, polls: Rc<Cell<usize>>) -> impl Future<Output = ()> {
    let mut left = n;
    poll_fn(move |cx| {
        polls.set(polls.get() + 1);
        if left == 0 {
            std::task::Poll::Ready(())
        } else {
            left -= 1;
            cx.waker().wake_by_ref();
            std::task::Poll::Pending
        }
    })
}

fn yield_counter(backend: Backend) {
    let sim = Sim::new(backend);
    let polls = Rc::new(Cell::new(0));
    let seen = polls.clone();
    let result = sim.block_on(async move {
        yield_times(3, seen).await;
        42
    });
    assert_eq!(result, Ok(42));
    assert_eq!(polls.get(), 4);
    let wrapper = sim.tasks.borrow().get(&0x1000).cloned().unwrap();
    assert_eq!(wrapper.polls(), 4);
    assert_eq!(wrapper.wakes_received(), 4);
    assert_eq!(sim.pending(), 0);
}

#[test]
fn yield_counter_over_the_thread_queue() {
    yield_counter(Backend::ThreadQueue);
}

#[test]
fn yield_counter_over_task_windows() {
    yield_counter(Backend::Window);
}

fn join_before_complete(backend: Backend) {
    let sim = Sim::new(backend);
    let polls_t1 = Rc::new(Cell::new(0));
    let polls_t2 = Rc::new(Cell::new(0));
    let seen_t1 = polls_t1.clone();
    let seen_t2 = polls_t2.clone();
    let inner = sim.clone();
    let result = sim.block_on(async move {
        let t1 = inner.spawn(async move {
            yield_times(2, seen_t1).await;
            "hello"
        });
        yield_times(1, seen_t2).await;
        t1.await
    });
    assert_eq!(result, Ok("hello"));
    assert_eq!(polls_t1.get(), 3);
    let t2 = sim.tasks.borrow().get(&0x1000).cloned().unwrap();
    let t1 = sim.tasks.borrow().get(&0x1010).cloned().unwrap();
    assert_eq!(t1.polls(), 3);
    assert!(t2.polls() >= 2);
    assert!(t1.polls() <= t1.wakes_received());
    assert!(t2.polls() <= t2.wakes_received());
}

#[test]
fn join_before_complete_over_the_thread_queue() {
    join_before_complete(Backend::ThreadQueue);
}

#[test]
fn join_before_complete_over_task_windows() {
    join_before_complete(Backend::Window);
}

#[test]
fn detached_task_runs_to_completion() {
    let sim = Sim::new(Backend::ThreadQueue);
    let counter = Rc::new(Cell::new(0));
    let seen = counter.clone();
    let inner = sim.clone();
    let handle = sim.spawn(async move {
        for _ in 0..5 {
            seen.set(seen.get() + 1);
            yield_times(1, Rc::new(Cell::new(0))).await;
        }
        inner.quit_message_loop();
        "dropped"
    });
    let cell = handle.cell.clone();
    drop(handle);
    assert!(cell.task.borrow().is_detached());
    assert!(cell.task.borrow().is_running());
    assert_eq!(counter.get(), 0);
    sim.run_message_loop();
    assert_eq!(counter.get(), 5);
    assert_eq!(cell.polls.get(), 6);
    // The output was dropped when the future returned it.
    assert!(cell.task.borrow().is_closed());
    assert!(!cell.task.borrow().is_completed());
}

#[test]
fn second_message_loop_on_the_thread_is_refused() {
    let sim = Sim::new(Backend::ThreadQueue);
    let inner = sim.clone();
    let result = sim.block_on(async move {
        // A nested `block_on` would begin by claiming the thread.
        let granted = inner.thread.borrow_mut().enter();
        (granted, 7 + 1)
    });
    assert_eq!(result, Ok((false, 8)));
    assert!(!sim.thread.borrow().is_running());
}

fn modal_interleaving(backend: Backend, code: i32) {
    let sim = Sim::new(backend);
    let closed = Rc::new(Cell::new(false));
    let polls = Rc::new(Cell::new(0));
    let close = closed.clone();
    let seen = polls.clone();
    let t = sim.spawn(async move {
        yield_times(10, seen).await;
        close.set(true);
    });
    let inner = sim.clone();
    let polls_at_return = polls.clone();
    let result = sim.block_on(async move {
        let before = polls_at_return.get();
        inner.modal_loop(code, &closed);
        let after = polls_at_return.get();
        (before, after)
    });
    // The task was polled once before the main future, and ten times more
    // while the modal loop ran inside the poll of the main future.
    assert_eq!(result, Ok((1, 11)));
    assert_eq!(t.cell.polls.get(), 11);
    assert!(t.cell.task.borrow().is_completed());
}

#[test]
fn modal_dialog_keeps_tasks_running() {
    modal_interleaving(Backend::ThreadQueue, MSGF_DIALOGBOX);
}

#[test]
fn modal_menu_keeps_tasks_running() {
    modal_interleaving(Backend::ThreadQueue, MSGF_MENU);
}

#[test]
fn modal_loop_keeps_window_tasks_running() {
    modal_interleaving(Backend::Window, MSGF_MENU);
}

#[test]
fn wake_during_a_poll_is_answered_by_one_more_wake() {
    let sim = Sim::new(Backend::ThreadQueue);
    let closed = Rc::new(Cell::new(false));
    let polls = Rc::new(Cell::new(0));
    let inner = sim.clone();
    let seen = polls.clone();
    let close = closed.clone();
    // Closes the modal loop once the main task's own wake has gone through it.
    let closer = sim.spawn(async move {
        yield_times(2, Rc::new(Cell::new(0))).await;
        close.set(true);
    });
    let result = sim.block_on(poll_fn(move |cx| {
        seen.set(seen.get() + 1);
        if seen.get() == 1 {
            // Woken while being polled: the wake is received by the modal
            // loop, which must not poll this future a second time.
            cx.waker().wake_by_ref();
            inner.modal_loop(MSGF_DIALOGBOX, &closed);
            assert_eq!(seen.get(), 1);
            std::task::Poll::Pending
        } else {
            std::task::Poll::Ready(seen.get())
        }
    }));
    assert_eq!(result, Ok(2));
    assert_eq!(polls.get(), 2);
    let main = sim.tasks.borrow().get(&0x1010).cloned().unwrap();
    assert_eq!(main.polls(), 2);
    // The first wake, the one received during the poll, and the one posted
    // in answer to it.
    assert_eq!(main.wakes_received(), 3);
    assert!(closer.cell.task.borrow().is_completed());
}

#[test]
fn message_with_reserved_id_for_a_window_is_forwarded_unchanged() {
    let sim = Sim::new(Backend::ThreadQueue);
    let polls = Rc::new(Cell::new(0));
    let seen = polls.clone();
    let idle = sim.spawn(poll_fn(move |_| {
        seen.set(seen.get() + 1);
        std::task::Poll::<()>::Pending
    }));
    let stray = Msg {
        hwnd: 0x5150,
        message: thread_queue::msg_id_wake(),
        wparam: 3,
        lparam: 0x1000,
    };
    sim.post(stray);
    sim.quit_message_loop();
    sim.run_message_loop();
    assert_eq!(*sim.forwarded.borrow(), vec![stray]);
    // Only the first schedule polled the task.
    assert_eq!(polls.get(), 1);
    assert_eq!(idle.cell.wakes_received.get(), 1);
}

#[test]
fn host_filter_drops_and_forwards() {
    let sim = Sim::new(Backend::ThreadQueue);
    *sim.filter.borrow_mut() = Rc::new(|msg: &Msg| msg.message == 0x0500);
    let dropped = Msg {
        hwnd: 9,
        message: 0x0500,
        wparam: 0,
        lparam: 0,
    };
    let forwarded = Msg {
        hwnd: 9,
        message: 0x0501,
        wparam: 0,
        lparam: 0,
    };
    sim.post(dropped);
    sim.post(forwarded);
    sim.quit_message_loop();
    sim.run_message_loop();
    assert_eq!(*sim.dropped.borrow(), vec![dropped]);
    assert_eq!(*sim.forwarded.borrow(), vec![forwarded]);
}

#[test]
fn host_filter_is_not_asked_about_wakes() {
    let sim = Sim::new(Backend::ThreadQueue);
    let asked = Rc::new(Cell::new(0));
    let count = asked.clone();
    *sim.filter.borrow_mut() = Rc::new(move |_: &Msg| {
        count.set(count.get() + 1);
        true
    });
    let result = sim.block_on(async { 3 });
    assert_eq!(result, Ok(3));
    assert_eq!(asked.get(), 0);
    assert!(sim.dropped.borrow().is_empty());
}

#[test]
fn block_on_reports_quit_before_completion() {
    let sim = Sim::new(Backend::ThreadQueue);
    sim.quit_message_loop();
    let result = sim.block_on(async { 5 });
    assert_eq!(result, Err(QuitMessageLoop));
    // The wake of the discarded task is still in the queue; receiving it
    // later polls nothing.
    assert_eq!(sim.pending(), 1);
    sim.quit_message_loop();
    sim.run_message_loop();
    let wrapper = sim.tasks.borrow().get(&0x1000).cloned().unwrap();
    assert_eq!(wrapper.wakes_received(), 1);
    assert_eq!(wrapper.polls(), 0);
}

#[test]
fn block_on_returns_output_when_future_completes_before_quit() {
    let sim = Sim::new(Backend::ThreadQueue);
    let inner = sim.clone();
    let result = sim.block_on(async move {
        yield_times(2, Rc::new(Cell::new(0))).await;
        // A quit that is asked for once the output is fixed changes nothing.
        inner.quit_message_loop();
        "done"
    });
    assert_eq!(result, Ok("done"));
}

#[test]
fn spawned_tasks_resume_in_the_next_loop() {
    let sim = Sim::new(Backend::ThreadQueue);
    let polls = Rc::new(Cell::new(0));
    let seen = polls.clone();
    let background = sim.spawn(async move {
        yield_times(4, seen).await;
        "late"
    });
    // The loop is quit after the first two messages.
    let first = sim.block_on(async { 1 });
    assert_eq!(first, Ok(1));
    assert!(polls.get() >= 1 && polls.get() < 5);
    assert!(background.cell.task.borrow().is_running());
    let second = sim.block_on(background);
    assert_eq!(second, Ok("late"));
    assert_eq!(polls.get(), 5);
}

#[test]
fn waker_invoked_from_elsewhere_causes_another_poll() {
    let sim = Sim::new(Backend::ThreadQueue);
    let polls = Rc::new(Cell::new(0));
    let seen = polls.clone();
    let released = Arc::new(Mutex::new(false));
    let gate = released.clone();
    let parked: Arc<Mutex<Option<Waker>>> = Arc::new(Mutex::new(None));
    let park = parked.clone();
    let inner = sim.clone();
    let handle = sim.spawn(poll_fn(move |cx| {
        seen.set(seen.get() + 1);
        if *gate.lock().unwrap() {
            inner.quit_message_loop();
            std::task::Poll::Ready(())
        } else {
            *park.lock().unwrap() = Some(cx.waker().clone());
            std::task::Poll::Pending
        }
    }));
    sim.quit_message_loop();
    sim.run_message_loop();
    assert_eq!(polls.get(), 1);
    assert_eq!(sim.pending(), 0);
    // What another thread would do with a clone of the waker.
    let remote = parked.lock().unwrap().take().unwrap();
    fn assert_send_sync<S: Send + Sync>(_: &S) {}
    assert_send_sync(&remote);
    *released.lock().unwrap() = true;
    remote.wake();
    assert_eq!(sim.pending(), 1);
    sim.run_message_loop();
    assert_eq!(polls.get(), 2);
    assert!(handle.cell.task.borrow().is_completed());
}

#[test]
fn polls_never_exceed_wakes_received() {
    let sim = Sim::new(Backend::ThreadQueue);
    let handle = sim.spawn(yield_times(3, Rc::new(Cell::new(0))));
    // Spurious wakes: five more than the task asks for.
    for _ in 0..5 {
        handle.cell.waker.wake_by_ref();
    }
    let result = sim.block_on(async { () });
    assert_eq!(result, Ok(()));
    sim.quit_message_loop();
    sim.run_message_loop();
    assert_eq!(sim.pending(), 0);
    // Four polls bring the future to its end; the wakes received after that
    // poll nothing.
    assert_eq!(handle.cell.polls.get(), 4);
    assert_eq!(handle.cell.wakes_received.get(), 9);
    assert!(handle.cell.task.borrow().is_completed());
}
