[package]
name = "keyfit"
version = "0.1.0"
edition = "2021"
publish = false

[dependencies]
anyhow = "=1.0.104"
chrono = "=0.4.45"
cocoa = "=0.22.0"
objc = "=0.2.7"
rdev = "=0.5.3"
rusqlite = { version = "=0.41.0", features = ["bundled"] }
serde = { version = "=1.0.229", features = ["derive"] }
windows = { version = "*", features = ["Win32_Foundation", "Win32_System_ProcessStatus", "Win32_System_Threading", "Win32_UI_WindowsAndMessaging"] }

[dev-dependencies]
tempfile = "=3.27.0"
