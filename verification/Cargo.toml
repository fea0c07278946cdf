[package]
name = "codepulse"
version = "0.1.0"
edition = "2021"
publish = false

[dependencies]
chrono = { version = "=0.4.45", default-features = false, features = ["std", "clock"] }
serde = { version = "=1.0.229", features = ["derive"] }
serde_json = "=1.0.154"
rusqlite = { version = "=0.41.1", features = ["bundled"] }
sysinfo = { version = "=0.40.1", default-features = false, features = ["system"] }
notify = { version = "=8.2.1", default-features = false }
tokio = { version = "=1.54.1", default-features = false, features = ["sync", "time"] }
dirs = "=7.0.0"
windows = { version = "=0.62.2", features = ["Win32_Foundation", "Win32_UI_WindowsAndMessaging"] }
