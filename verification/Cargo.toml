[package]
name = "eventlog"
version = "0.1.0"
edition = "2021"
publish = false

[dependencies]
log = { version = "=0.4.34", features = ["std"] }
thiserror = "=2.0.21"
windows = { version = "=0.44.0", features = ["Win32_Foundation", "Win32_Security", "Win32_System_EventLog", "Win32_System_Registry", "Win32_System_Diagnostics_Debug", "Win32_System_Memory"] }
