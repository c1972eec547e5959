[package]
name = "thread_status"
version = "0.1.0"
edition = "2021"
publish = false

[dependencies]
anyhow = "=1.0.104"
log = "=0.4.34"
env_logger = "=0.11.11"
windows = { version = "=0.52.0", features = ["Win32_Foundation", "Win32_Security", "Win32_System_Threading", "Wdk_System_SystemInformation"] }
