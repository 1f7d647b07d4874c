[package]
name = "polydraw"
version = "0.1.0"
edition = "2021"
publish = false

[dependencies]
windows = { version = "0.48", features = ["Win32_Foundation", "Win32_Graphics_Gdi", "Win32_System_LibraryLoader", "Win32_UI_WindowsAndMessaging"] }
