[package]
name = "win-fp-debug"
version = "0.1.0"
edition = "2021"
publish = false

[dependencies]
anyhow = "1"
clap = { version = "4", features = ["derive"] }
colored = "2"
serde_json = "1"
windows = { version = "0.59", features = ["Win32_Devices_BiometricFramework", "Win32_Devices_DeviceAndDriverInstallation", "Win32_Foundation", "Win32_Graphics_Gdi", "Win32_Security", "Win32_System_Registry", "Win32_System_Services", "Win32_System_Threading", "Win32_UI_WindowsAndMessaging"] }
