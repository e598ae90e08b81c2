[package]
name = "browser_url"
version = "0.1.0"
edition = "2021"
publish = false

[dependencies]
gio = "=0.22.10"
windows = { version = "=0.58.0", features = [
    "Win32_Foundation",
    "Win32_System_Com",
    "Win32_System_ProcessStatus",
    "Win32_System_Threading",
    "Win32_UI_Accessibility",
    "Win32_UI_WindowsAndMessaging",
] }
