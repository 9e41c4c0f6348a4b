[package]
name = "render"
version = "0.1.0"
edition = "2021"
publish = false

[dependencies]
ash = { version = "0.37", default-features = false, features = ["debug"] }
raw-window-handle = "0.5"
windows-sys = { version = "0.45", features = ["Win32_Foundation", "Win32_System_LibraryLoader"] }
log = "0.4"
env_logger = { version = "0.10", default-features = false }
winit = { version = "0.28", default-features = false, features = ["x11"] }
