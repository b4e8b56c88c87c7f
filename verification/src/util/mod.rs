//! Wrappers around window handles and the per-thread message filter hook.

pub mod msg_filter_hook;
pub mod window;

pub use self::msg_filter_hook::{hook_proc, HookRegistrationError, HookReply, MsgFilterHook};
pub use self::window::{
    wndproc_setup, wndproc_typed, CreateParams, Reply, Setup, Typed, Window,
    WindowCreationError, WindowMessage, WindowType,
};
