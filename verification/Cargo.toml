[package]
name = "cursor_guest"
version = "0.1.0"
edition = "2021"
publish = false

[dependencies]
serde = { version = "1", features = ["derive"] }
serde_json = "1"
chrono = "0.4"
dirs = "5"
encoding_rs = "0.8"
lazy_static = "1.4"
rand = "0.8"
uuid = { version = "1", features = ["v4"] }
winapi = { version = "0.3", features = ["libloaderapi", "winuser"] }
winreg = "0.52"
