[package]
name = "window_of_opportunity"
version = "0.1.0"
edition = "2021"
publish = false

[dependencies]
dioxus-core = "=0.7.10"
windows = { version = "=0.58.0", features = [
    "Win32_Foundation",
    "Win32_Graphics_Gdi",
    "Win32_System_LibraryLoader",
    "Win32_UI_WindowsAndMessaging",
    "Win32_UI_Input_KeyboardAndMouse",
] }
