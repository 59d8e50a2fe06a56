[package]
name = "anticheat"
version = "0.1.0"
edition = "2021"
publish = false

[dependencies]
serde_json = "=1.0.151"
serde = { version = "=1.0.229", features = ["derive"] }
reqwest = { version = "=0.12.28", default-features = false, features = ["json", "multipart", "rustls-tls"] }
sysinfo = "=0.39.6"
windows = { version = "=0.58.0", features = ["Win32_Foundation", "Win32_System_Threading", "Win32_System_Memory", "Win32_System_ProcessStatus", "Win32_System_Diagnostics_Debug", "Win32_UI_WindowsAndMessaging", "Wdk_System_SystemInformation", "Wdk_Foundation"] }
