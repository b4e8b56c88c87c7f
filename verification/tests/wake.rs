use winmsg_executor::backend::{thread_queue, window};
use winmsg_executor::util::WindowMessage;
use winmsg_executor::{Msg, WakeTarget};

#[test]
fn reserved_wake_number_is_documented_value() {
    assert_eq!(thread_queue::msg_id_wake(), 0xB43A);
    assert_eq!(
        thread_queue::msg_id_wake(),
        windows_sys::Win32::UI::WindowsAndMessaging::WM_APP + 13370
    );
}

#[test]
fn window_wake_number_is_wm_user() {
    assert_eq!(window::msg_id_wake(), 0x0400);
    assert_eq!(
        window::msg_id_wake(),
        windows_sys::Win32::UI::WindowsAndMessaging::WM_USER
    );
}

#[test]
fn thread_wake_message_is_addressed_to_the_thread() {
    let msg = thread_queue::wake_message(0x1234);
    assert_eq!(
        msg,
        Msg {
            hwnd: 0,
            message: 0xB43A,
            wparam: 0,
            lparam: 0x1234
        }
    );
}

#[test]
fn window_wake_message_is_addressed_to_the_window() {
    let msg = window::wake_message(77, -5);
    assert_eq!(
        msg,
        Msg {
            hwnd: 77,
            message: 0x0400,
            wparam: 0,
            lparam: -5
        }
    );
}

#[test]
fn dispatch_consumes_a_wake_and_hands_out_its_payload() {
    let msg = thread_queue::wake_message(42);
    assert_eq!(thread_queue::dispatch(&msg), Some(42));
}

#[test]
fn dispatch_leaves_other_numbers_alone() {
    let msg = Msg {
        hwnd: 0,
        message: 0xB43B,
        wparam: 0,
        lparam: 42,
    };
    assert_eq!(thread_queue::dispatch(&msg), None);
    let msg = Msg {
        hwnd: 0,
        message: 0x0400,
        wparam: 0,
        lparam: 42,
    };
    assert_eq!(thread_queue::dispatch(&msg), None);
}

#[test]
fn reserved_id_addressed_to_a_window_is_not_a_wake() {
    let msg = Msg {
        hwnd: 0x50,
        message: thread_queue::msg_id_wake(),
        wparam: 1,
        lparam: 42,
    };
    assert_eq!(thread_queue::dispatch(&msg), None);
    // What is forwarded is the message as it came.
    assert_eq!(
        msg.delivered(),
        WindowMessage {
            hwnd: 0x50,
            msg: 0xB43A,
            wparam: 1,
            lparam: 42
        }
    );
}

#[test]
fn window_backend_dispatch_consumes_nothing() {
    assert_eq!(window::dispatch(&window::wake_message(77, 9)), None);
    assert_eq!(window::dispatch(&thread_queue::wake_message(9)), None);
}

#[test]
fn task_window_procedure_recognises_its_wake() {
    let step = window::wndproc(&window::wake_message(77, 9).delivered());
    assert_eq!(step.run, Some(9));
    assert_eq!(step.ret, Some(0));
}

#[test]
fn task_window_procedure_leaves_other_messages_to_the_default() {
    let step = window::wndproc(&WindowMessage {
        hwnd: 77,
        msg: 0x0010,
        wparam: 0,
        lparam: 9,
    });
    assert_eq!(step.run, None);
    assert_eq!(step.ret, None);
}

#[test]
fn wake_target_picks_the_channel() {
    assert_eq!(
        WakeTarget::Thread(3).wake_message(8),
        thread_queue::wake_message(8)
    );
    assert_eq!(
        WakeTarget::Window(31).wake_message(8),
        window::wake_message(31, 8)
    );
    assert_eq!(WakeTarget::Thread(3).thread(), Some(3));
    assert_eq!(WakeTarget::Window(31).thread(), None);
}

#[test]
fn two_wakes_are_two_equal_messages() {
    let target = WakeTarget::Thread(3);
    assert_eq!(target.wake_message(8), target.wake_message(8));
}
