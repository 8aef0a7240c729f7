[package]
name = "hookcore"
version = "0.1.0"
edition = "2021"
publish = false

[dependencies]
dobby-rs = "0.1"
thiserror = "1"
windows = { version = "0.48", features = ["Win32_Foundation", "Win32_Security", "Win32_System_LibraryLoader", "Win32_System_Memory", "Win32_System_SystemServices", "Win32_System_Threading"] }
