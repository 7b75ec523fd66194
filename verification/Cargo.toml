[package]
name = "auto-shutdown"
version = "0.1.0"
edition = "2021"
publish = false

[dependencies]
aes = "*"
base64 = "*"
chrono = "*"
ctr = "*"
futures = "*"
hmac = "*"
if-addrs = "*"
rand = "*"
serde_json = "*"
sha2 = "*"
tokio = { version = "*", features = ["macros", "net", "rt", "sync", "time"] }
tokio-tungstenite = "*"
tray-icon = { version = "*", default-features = false }
windows = { version = "*", features = ["Win32_Foundation", "Win32_Security", "Win32_System_Com", "Win32_System_Ole", "Win32_System_TaskScheduler", "Win32_System_Threading", "Win32_System_Variant", "Win32_UI_WindowsAndMessaging"] }
