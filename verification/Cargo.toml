[package]
name = "webview_host"
version = "0.1.0"
edition = "2021"
publish = false

[dependencies]
libc = "0.2"
once_cell = "1"
winapi = { version = "0.3", features = ["libloaderapi", "minwindef", "ntdef", "winbase", "windef", "wingdi", "winuser"] }
