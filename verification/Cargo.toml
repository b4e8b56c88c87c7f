[package]
name = "winmsg-executor"
version = "0.1.0"
edition = "2021"
publish = false

[dependencies]
async-task = "4"
windows-sys = { version = "0.59", features = ["Win32_Foundation", "Win32_Graphics_Gdi", "Win32_System_Threading", "Win32_UI_WindowsAndMessaging"] }
