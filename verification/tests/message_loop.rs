use winmsg_executor::util::{hook_proc, HookRegistrationError, HookReply, MsgFilterHook};
use winmsg_executor::{fetched, filter, forwards, Fetched, ThreadState, Verdict};

#[test]
fn new_thread_state_is_idle() {
    let mut thread: ThreadState<&str> = ThreadState::new();
    assert!(!thread.is_running());
    assert!(!thread.is_hooked());
    assert_eq!(thread.take_panic(), None);
}

#[test]
fn first_loop_is_granted_the_thread() {
    let mut thread: ThreadState<&str> = ThreadState::new();
    assert!(thread.enter());
    assert!(thread.is_running());
}

#[test]
fn overlapping_loop_is_refused() {
    let mut thread: ThreadState<&str> = ThreadState::new();
    assert!(thread.enter());
    assert!(!thread.enter());
    assert!(thread.is_running());
}

#[test]
fn thread_is_free_again_after_the_loop() {
    let mut thread: ThreadState<&str> = ThreadState::new();
    assert!(thread.enter());
    thread.leave();
    assert!(!thread.is_running());
    assert!(thread.enter());
}

#[test]
fn fetch_result_zero_ends_the_loop() {
    assert_eq!(fetched(0), Fetched::Quit);
}

#[test]
fn fetch_result_one_is_a_message() {
    assert_eq!(fetched(1), Fetched::Message);
}

#[test]
fn unhandled_message_is_forwarded() {
    assert!(forwards(0));
}

#[test]
fn handled_message_is_not_forwarded() {
    assert!(!forwards(1));
    assert!(!forwards(-1));
    assert!(!forwards(7));
}

#[test]
fn one_hook_per_thread() {
    let mut thread: ThreadState<&str> = ThreadState::new();
    assert!(thread.reserve_hook());
    assert!(thread.is_hooked());
    assert!(!thread.reserve_hook());
    assert!(thread.is_hooked());
}

#[test]
fn registered_hook_keeps_its_handle() {
    let mut thread: ThreadState<&str> = ThreadState::new();
    assert!(thread.reserve_hook());
    let hook = MsgFilterHook::register(&mut thread, 0x77).unwrap();
    assert_eq!(hook.handle(), 0x77);
    assert!(thread.is_hooked());
    assert_eq!(hook.unregister(&mut thread), 0x77);
    assert!(!thread.is_hooked());
    // The place is free for the next loop.
    assert!(thread.reserve_hook());
}

#[test]
fn refused_hook_frees_the_place() {
    let mut thread: ThreadState<&str> = ThreadState::new();
    assert!(thread.reserve_hook());
    let refused = MsgFilterHook::register(&mut thread, 0);
    assert_eq!(refused.err(), Some(HookRegistrationError));
    assert!(!thread.is_hooked());
}

#[test]
fn negative_hook_handle_is_a_handle() {
    let mut thread: ThreadState<&str> = ThreadState::new();
    assert!(thread.reserve_hook());
    let hook = MsgFilterHook::register(&mut thread, -8).unwrap();
    assert_eq!(hook.handle(), -8);
}

#[test]
fn hook_answers_handled_for_a_handled_message() {
    let mut thread: ThreadState<&str> = ThreadState::new();
    let reply = hook_proc(&mut thread, 0, Ok(true));
    assert_eq!(reply, HookReply::Handled);
    assert_eq!(reply.result(), Some(1));
    assert_eq!(thread.take_panic(), None);
}

#[test]
fn hook_passes_an_unhandled_message_on() {
    let mut thread: ThreadState<&str> = ThreadState::new();
    let reply = hook_proc(&mut thread, 0, Ok(false));
    assert_eq!(reply, HookReply::CallNext);
    assert_eq!(reply.result(), None);
    assert_eq!(thread.take_panic(), None);
}

#[test]
fn hook_answers_alike_for_every_kind_of_loop() {
    for code in [-1, 0, 1, 2, 5, 6, 4096] {
        let mut thread: ThreadState<&str> = ThreadState::new();
        assert_eq!(hook_proc(&mut thread, code, Ok(true)), HookReply::Handled);
        assert_eq!(hook_proc(&mut thread, code, Ok(false)), HookReply::CallNext);
        assert_eq!(
            hook_proc(&mut thread, code, Err("boom")),
            HookReply::Handled
        );
    }
}

#[test]
fn hook_captures_a_panic_for_the_loop() {
    let mut thread: ThreadState<&str> = ThreadState::new();
    assert!(thread.enter());
    let reply = hook_proc(&mut thread, 2, Err("boom"));
    assert_eq!(reply, HookReply::Handled);
    assert!(thread.is_running());
    assert_eq!(thread.take_panic(), Some("boom"));
    // Raised once.
    assert_eq!(thread.take_panic(), None);
}

#[test]
fn later_panic_replaces_an_earlier_one() {
    let mut thread: ThreadState<&str> = ThreadState::new();
    hook_proc(&mut thread, 0, Err("first"));
    hook_proc(&mut thread, 0, Err("second"));
    assert_eq!(thread.take_panic(), Some("second"));
}

#[test]
fn handled_message_leaves_a_captured_panic_in_place() {
    let mut thread: ThreadState<&str> = ThreadState::new();
    hook_proc(&mut thread, 0, Err("boom"));
    hook_proc(&mut thread, 0, Ok(true));
    hook_proc(&mut thread, 0, Ok(false));
    assert_eq!(thread.take_panic(), Some("boom"));
}

#[test]
fn wake_is_consumed_without_asking_the_host() {
    let verdict = filter(Some(0x40), || panic!("the host's filter is asked about a wake"));
    assert_eq!(verdict, Verdict::Run(0x40));
    assert!(verdict.handled());
}

#[test]
fn host_filter_discards_what_it_handles() {
    let verdict = filter(None, || true);
    assert_eq!(verdict, Verdict::Discard);
    assert!(verdict.handled());
}

#[test]
fn unhandled_message_goes_on_to_dispatch() {
    let verdict = filter(None, || false);
    assert_eq!(verdict, Verdict::Forward);
    assert!(!verdict.handled());
}
