[package]
name = "karukan-tsf"
version = "0.1.0"
edition = "2021"
publish = false

[dependencies]
tracing = "0.1"
windows = { version = "0.58", features = ["implement", "Win32_Foundation", "Win32_System_Com", "Win32_UI_TextServices", "Win32_Graphics_Gdi", "Win32_UI_WindowsAndMessaging", "Win32_UI_HiDpi", "Win32_UI_Input_KeyboardAndMouse"] }
