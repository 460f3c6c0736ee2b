[package]
name = "sysprobe"
version = "0.1.0"
edition = "2021"
publish = false

[dependencies]
pyo3 = "0.22"
windows-sys = { version = "0.52", features = ["Win32_Foundation", "Win32_UI_Input_KeyboardAndMouse", "Win32_UI_WindowsAndMessaging", "Win32_System_SystemInformation", "Win32_System_Shutdown"] }
