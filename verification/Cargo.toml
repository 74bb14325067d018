[package]
name = "platform_services"
version = "0.1.0"
edition = "2021"
publish = false

[dependencies]
anyhow = "=1.0.104"
normpath = "=1.5.2"
simple-stopwatch = "=0.1.4"
wait-timeout = "=0.2.1"
windows = { version = "=0.52.0", features = ["Win32_Foundation", "Win32_Security", "Win32_System_Threading", "Win32_UI_WindowsAndMessaging"] }
winsafe = { version = "=0.0.29", features = ["kernel"] }
