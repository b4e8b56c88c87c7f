//! A window that carries state shared with its window procedure, and the
//! decisions of the two window procedures that serve it.

use crate::sys::{
    cw_usedefault, hwnd_message, spec_cw_usedefault, spec_hwnd_message, spec_wm_close,
    spec_wm_nccreate, spec_wm_ncdestroy, wm_close, wm_nccreate, wm_ncdestroy,
};
use vstd::prelude::*;

verus! {

/// The arguments of a window procedure.
#[derive(Debug, Clone, Copy, PartialEq, Eq, Structural)]
pub struct WindowMessage {
    pub hwnd: isize,
    pub msg: u32,
    pub wparam: usize,
    pub lparam: isize,
}

/// The kinds of window the executor creates.
#[derive(Debug, Clone, Copy, PartialEq, Eq, Structural)]
pub enum WindowType {
    /// Visible window which receives broadcast messages from the desktop.
    TopLevel,
    /// Window that is not visible and receives no broadcast messages.
    MessageOnly,
}

/// What is handed to the system when a window is created: styles, position,
/// size and the parent handle. The class, the menu and the instance do not
/// depend on the kind of window.
#[derive(Debug, Clone, Copy, PartialEq, Eq, Structural)]
pub struct CreateParams {
    pub ex_style: u32,
    pub style: u32,
    pub x: i32,
    pub y: i32,
    pub width: i32,
    pub height: i32,
    pub parent: isize,
}

impl WindowType {
    /// The parent handle that makes a new window one of this kind.
    pub open spec fn spec_parent(self) -> isize {
        match self {
            WindowType::TopLevel => 0,
            WindowType::MessageOnly => spec_hwnd_message(),
        }
    }

    /// The parent handle that makes a new window one of this kind: none for a
    /// top-level window, the message-only parent for a message-only window.
    #[verifier::when_used_as_spec(spec_parent)]
    pub fn parent(self) -> (parent: isize)
        ensures
            parent == self.spec_parent(),
    {
        match self {
            WindowType::TopLevel => 0,
            WindowType::MessageOnly => hwnd_message(),
        }
    }

    /// The creation arguments of a window of this kind.
    pub open spec fn spec_create_params(self) -> CreateParams {
        CreateParams {
            ex_style: 0,
            style: 0,
            x: spec_cw_usedefault(),
            y: spec_cw_usedefault(),
            width: spec_cw_usedefault(),
            height: spec_cw_usedefault(),
            parent: self.spec_parent(),
        }
    }

    /// The creation arguments of a window of this kind: no styles, position
    /// and size left to the system, and the parent that fixes the kind.
    #[verifier::when_used_as_spec(spec_create_params)]
    pub fn create_params(self) -> (params: CreateParams)
        ensures
            params == self.spec_create_params(),
    {
        CreateParams {
            ex_style: 0,
            style: 0,
            x: cw_usedefault(),
            y: cw_usedefault(),
            width: cw_usedefault(),
            height: cw_usedefault(),
            parent: self.parent(),
        }
    }
}

/// Window could not be created: the system returned the null handle.
#[derive(Debug, Clone, Copy, PartialEq, Eq, Structural)]
pub struct WindowCreationError;

/// Owned window handle together with the state shared with the window
/// procedure. The handle is never null.
#[derive(Debug)]
pub struct Window<S> {
    hwnd: isize,
    state: S,
}

impl<S> Window<S> {
    /// The handle is a window's: not null.
    #[verifier::type_invariant]
    pub closed spec fn wf(self) -> bool {
        self.hwnd != 0
    }

    /// This window's handle.
    pub closed spec fn spec_hwnd(&self) -> isize {
        self.hwnd
    }

    /// The state shared with the window procedure.
    pub closed spec fn spec_state(&self) -> S {
        self.state
    }

    /// Takes ownership of the handle that creating a window returned.
    /// Creation failed exactly if that handle is null.
    pub fn new(hwnd: isize, state: S) -> (created: Result<Self, WindowCreationError>)
        ensures
            hwnd == 0 <==> created is Err,
            created matches Ok(window) ==> window.spec_hwnd() == hwnd && window.spec_state()
                == state,
    {
        if hwnd == 0 {
            Err(WindowCreationError)
        } else {
            Ok(Window { hwnd, state })
        }
    }

    /// This window's handle, which is not null.
    #[verifier::when_used_as_spec(spec_hwnd)]
    pub fn hwnd(&self) -> (hwnd: isize)
        ensures
            hwnd == self.spec_hwnd(),
            hwnd != 0,
    {
        proof {
            use_type_invariant(self);
        }
        self.hwnd
    }

    /// The state shared with the window procedure.
    pub fn state(&self) -> (state: &S)
        ensures
            *state == self.spec_state(),
    {
        &self.state
    }
}

/// What a window procedure answers: a result of its own, or that of the
/// system's default procedure.
#[derive(Debug, Clone, Copy, PartialEq, Eq, Structural)]
pub enum Reply {
    Return(isize),
    Default,
}

/// What the window procedure of the class does with a message.
#[derive(Debug, Clone, Copy, PartialEq, Eq, Structural)]
pub enum Setup {
    /// Make the typed window procedure the window's own, store the user data
    /// in the window, and send the same message to the window again.
    Subclass,
    /// Hand the message to the system's default procedure.
    Default,
}

/// The window procedure of the class, which every window starts with. It
/// serves until the first notification that carries the creation parameters;
/// what arrives before has no user data to go to.
pub open spec fn spec_wndproc_setup(msg: u32) -> Setup {
    if msg == spec_wm_nccreate() {
        Setup::Subclass
    } else {
        Setup::Default
    }
}

/// Decides what the window procedure of the class does with message `msg`.
#[verifier::when_used_as_spec(spec_wndproc_setup)]
pub fn wndproc_setup(msg: u32) -> (step: Setup)
    ensures
        step == spec_wndproc_setup(msg),
{
    if msg == wm_nccreate() {
        Setup::Subclass
    } else {
        Setup::Default
    }
}

/// What the typed window procedure does after the user's procedure returned.
#[derive(Debug, Clone, Copy, PartialEq, Eq, Structural)]
pub struct Typed {
    /// The answer to the system.
    pub reply: Reply,
    /// Whether the user data is freed now. After that the user's procedure
    /// cannot be called again.
    pub release: bool,
}

/// The typed window procedure, after the user's procedure returned `ret` for
/// message `msg`. A request to close is swallowed, so that the window lives
/// until its owner drops it. The last notification frees the user data.
/// Otherwise the user's answer stands, or the default procedure's where the
/// user gave none.
pub open spec fn spec_wndproc_typed(msg: u32, ret: Option<isize>) -> Typed {
    if msg == spec_wm_close() {
        Typed { reply: Reply::Return(0), release: false }
    } else if msg == spec_wm_ncdestroy() {
        Typed { reply: Reply::Return(0), release: true }
    } else {
        Typed {
            reply: match ret {
                Some(result) => Reply::Return(result),
                None => Reply::Default,
            },
            release: false,
        }
    }
}

/// Decides what the typed window procedure does after the user's procedure
/// returned `ret` for message `msg`.
#[verifier::when_used_as_spec(spec_wndproc_typed)]
pub fn wndproc_typed(msg: u32, ret: Option<isize>) -> (step: Typed)
    ensures
        step == spec_wndproc_typed(msg, ret),
{
    if msg == wm_close() {
        Typed { reply: Reply::Return(0), release: false }
    } else if msg == wm_ncdestroy() {
        Typed { reply: Reply::Return(0), release: true }
    } else {
        match ret {
            Some(result) => Typed { reply: Reply::Return(result), release: false },
            None => Typed { reply: Reply::Default, release: false },
        }
    }
}

/// Where the user data of a window is in the window's life.
pub struct Life {
    /// The typed window procedure serves the window, and finds the user data
    /// in it.
    pub attached: bool,
    /// The user data was freed.
    pub released: bool,
    /// The user's procedure was called after the user data was freed.
    pub misused: bool,
}

/// The user data after the window received `msg`: the class's procedure
/// attaches it when it subclasses the window, and from then on the typed
/// procedure calls the user's procedure for every message and frees the user
/// data when it says so.
pub open spec fn life_after(life: Life, msg: u32) -> Life {
    if life.attached || spec_wndproc_setup(msg) == Setup::Subclass {
        Life {
            attached: true,
            released: life.released || spec_wndproc_typed(msg, None).release,
            misused: life.misused || life.released,
        }
    } else {
        life
    }
}

/// The user data after the window received `msgs` in this order.
pub open spec fn life_through(life: Life, msgs: Seq<u32>) -> Life
    decreases msgs.len(),
{
    if msgs.len() == 0 {
        life
    } else {
        life_through(life_after(life, msgs[0]), msgs.drop_first())
    }
}

/// Whether the last notification of a window's life, if it is among `msgs`,
/// is the last of them, as the system promises.
pub open spec fn last_comes_last(msgs: Seq<u32>) -> bool {
    forall|i: int| 0 <= i < msgs.len() - 1 ==> msgs[i] != spec_wm_ncdestroy()
}

/// Whether the typed window procedure frees the user data does not depend on
/// what the user's procedure answered.
pub proof fn lemma_release_ignores_answer(msg: u32, ret: Option<isize>)
    ensures
        spec_wndproc_typed(msg, ret).release == spec_wndproc_typed(msg, None).release,
        spec_wndproc_typed(msg, ret).release <==> msg == spec_wm_ncdestroy(),
{
}

/// The user data lives from the creation of the window to its last
/// notification. Whatever messages the window receives, the user's procedure
/// is never called after the user data was freed; the user data is freed
/// only by the last notification; and once attached, it is freed by it.
pub proof fn lemma_user_data_life(life: Life, msgs: Seq<u32>)
    requires
        !life.released,
        !life.misused,
        last_comes_last(msgs),
    ensures
        !life_through(life, msgs).misused,
        life_through(life, msgs).released ==> msgs.len() > 0 && msgs.last()
            == spec_wm_ncdestroy(),
        life.attached && msgs.len() > 0 && msgs.last() == spec_wm_ncdestroy() ==> life_through(
            life,
            msgs,
        ).released,
        life.attached ==> life_through(life, msgs).attached,
    decreases msgs.len(),
{
    if msgs.len() > 0 {
        let rest = msgs.drop_first();
        let next = life_after(life, msgs[0]);
        if rest.len() > 0 {
            assert(msgs[0] != spec_wm_ncdestroy());
            assert forall|i: int| 0 <= i < rest.len() - 1 implies rest[i]
                != spec_wm_ncdestroy() by {
                assert(rest[i] == msgs[i + 1]);
            }
            assert(rest.last() == msgs.last());
            lemma_user_data_life(next, rest);
        } else {
            assert(life_through(next, rest) == next);
        }
    }
}

} // verus!
