[package]
name = "wxdat"
version = "0.1.0"
edition = "2021"
publish = false

[dependencies]
aes = "0.8"
base64 = "0.22"
log = "0.4"
serde = { version = "1", features = ["derive"] }
serde_json = "1"
thiserror = "1"
tokio = { version = "1", features = ["rt"] }
windows = { version = "0.58", features = ["Win32_Foundation", "Win32_System_LibraryLoader"] }
