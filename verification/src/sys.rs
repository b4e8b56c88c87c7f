//! The numbers of the Win32 message protocol that this crate's rules read.
//!
//! Every executable function here reads one constant of `windows_sys`; its
//! contract states the value that the constant has there, and is not proved.

use vstd::prelude::*;

verus! {

/// First message number of the range that applications may use for messages
/// they post to themselves.
pub open spec fn spec_wm_app() -> u32 {
    0x8000
}

/// First message number of the range that a window class may use privately.
pub open spec fn spec_wm_user() -> u32 {
    0x0400
}

/// Asks a window to close.
pub open spec fn spec_wm_close() -> u32 {
    0x0010
}

/// Sent to a window before it is sized for the first time.
pub open spec fn spec_wm_getminmaxinfo() -> u32 {
    0x0024
}

/// First notification of a window's life that carries its creation parameters.
pub open spec fn spec_wm_nccreate() -> u32 {
    0x0081
}

/// Last notification a window ever receives.
pub open spec fn spec_wm_ncdestroy() -> u32 {
    0x0082
}

/// Parent handle that makes a new window a message-only window.
pub open spec fn spec_hwnd_message() -> isize {
    (-3) as isize
}

/// Position or size that lets the system choose.
pub open spec fn spec_cw_usedefault() -> i32 {
    i32::MIN
}

/// Reads `windows_sys::Win32::UI::WindowsAndMessaging::WM_APP`.
/// Trusted: the constant is 0x8000.
#[verifier::external_body]
#[verifier::when_used_as_spec(spec_wm_app)]
pub(crate) fn wm_app() -> (id: u32)
    ensures
        id == spec_wm_app(),
{
    windows_sys::Win32::UI::WindowsAndMessaging::WM_APP
}

/// Reads `windows_sys::Win32::UI::WindowsAndMessaging::WM_USER`.
/// Trusted: the constant is 0x0400.
#[verifier::external_body]
#[verifier::when_used_as_spec(spec_wm_user)]
pub(crate) fn wm_user() -> (id: u32)
    ensures
        id == spec_wm_user(),
{
    windows_sys::Win32::UI::WindowsAndMessaging::WM_USER
}

/// Reads `windows_sys::Win32::UI::WindowsAndMessaging::WM_CLOSE`.
/// Trusted: the constant is 0x0010.
#[verifier::external_body]
#[verifier::when_used_as_spec(spec_wm_close)]
pub(crate) fn wm_close() -> (id: u32)
    ensures
        id == spec_wm_close(),
{
    windows_sys::Win32::UI::WindowsAndMessaging::WM_CLOSE
}

/// Reads `windows_sys::Win32::UI::WindowsAndMessaging::WM_GETMINMAXINFO`.
/// Trusted: the constant is 0x0024.
#[verifier::external_body]
#[verifier::when_used_as_spec(spec_wm_getminmaxinfo)]
pub(crate) fn wm_getminmaxinfo() -> (id: u32)
    ensures
        id == spec_wm_getminmaxinfo(),
{
    windows_sys::Win32::UI::WindowsAndMessaging::WM_GETMINMAXINFO
}

/// Reads `windows_sys::Win32::UI::WindowsAndMessaging::WM_NCCREATE`.
/// Trusted: the constant is 0x0081.
#[verifier::external_body]
#[verifier::when_used_as_spec(spec_wm_nccreate)]
pub(crate) fn wm_nccreate() -> (id: u32)
    ensures
        id == spec_wm_nccreate(),
{
    windows_sys::Win32::UI::WindowsAndMessaging::WM_NCCREATE
}

/// Reads `windows_sys::Win32::UI::WindowsAndMessaging::WM_NCDESTROY`.
/// Trusted: the constant is 0x0082.
#[verifier::external_body]
#[verifier::when_used_as_spec(spec_wm_ncdestroy)]
pub(crate) fn wm_ncdestroy() -> (id: u32)
    ensures
        id == spec_wm_ncdestroy(),
{
    windows_sys::Win32::UI::WindowsAndMessaging::WM_NCDESTROY
}

/// Reads `windows_sys::Win32::UI::WindowsAndMessaging::HWND_MESSAGE` as an
/// integer. Trusted: the handle is the address -3.
#[verifier::external_body]
#[verifier::when_used_as_spec(spec_hwnd_message)]
pub(crate) fn hwnd_message() -> (handle: isize)
    ensures
        handle == spec_hwnd_message(),
{
    windows_sys::Win32::UI::WindowsAndMessaging::HWND_MESSAGE as isize
}

/// Reads `windows_sys::Win32::UI::WindowsAndMessaging::CW_USEDEFAULT`.
/// Trusted: the constant is the least `i32`, -2147483648.
#[verifier::external_body]
#[verifier::when_used_as_spec(spec_cw_usedefault)]
pub(crate) fn cw_usedefault() -> (value: i32)
    ensures
        value == spec_cw_usedefault(),
{
    windows_sys::Win32::UI::WindowsAndMessaging::CW_USEDEFAULT
}

} // verus!
