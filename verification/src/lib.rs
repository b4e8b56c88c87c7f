//! The decisions of an asynchronous task executor that is driven by a thread's
//! native message queue, verified with Verus.
//!
//! The executor shares the thread's message loop with window procedures,
//! modal dialogs and menus. Waking a task posts a message; receiving that
//! message polls the task. This crate holds every rule of that protocol as a
//! function from plain values to plain values: what a wake looks like and how
//! it is recognised, how a task moves when it is woken, polled, joined or
//! detached, what one turn of the message loop does, what the filter hook
//! answers, and how a window procedure treats the messages of a window's
//! life. Whoever calls the operating system performs what these functions
//! decide.

pub mod backend;
pub mod message;
pub mod message_loop;
pub mod model;
pub mod sys;
pub mod task;
pub mod trace;
pub mod util;
pub mod window;

pub use crate::backend::WakeTarget;
pub use crate::message::Msg;
pub use crate::message_loop::{
    block_on, fetched, filter, forwards, poll_ready, spawn, Fetched, QuitMessageLoop, ThreadState,
    Verdict,
};
pub use crate::task::{AfterPoll, Poll, Task, TaskState};
