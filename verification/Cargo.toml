[package]
name = "ssh_assistant"
version = "0.1.0"
edition = "2021"
publish = false

[dependencies]
base64 = "0.22"
dirs = "5"
hex = "0.4"
image = { version = "0.24", default-features = false, features = ["png"] }
md-5 = "0.10"
notify = "6"
portable-pty = "0.8"
rusqlite = "*"
serde = { version = "1", features = ["derive"] }
sha2 = "0.10"
socket2 = { version = "0.5", features = ["all"] }
ssh-key = { version = "0.6", features = ["ed25519", "rsa", "encryption", "getrandom"] }
ssh2 = "0.9"
tokio = { version = "1", features = ["rt-multi-thread", "time"] }
uuid = { version = "1", features = ["v4"] }
windows = { version = "*", features = ["Win32_Foundation", "Win32_Graphics_Gdi", "Win32_Storage_FileSystem", "Win32_UI_Shell", "Win32_UI_WindowsAndMessaging"] }
