[package]
name = "blackbird"
version = "0.1.0"
edition = "2021"
publish = false

[dependencies]
raw-window-handle = "0.6"
tokio = { version = "1", default-features = false, features = ["macros", "rt"] }
vulkano = { version = "0.35", default-features = false }
wgpu = { version = "22", default-features = false }
windows-sys = { version = "0.59", features = ["Win32_Foundation", "Win32_Graphics_Gdi", "Win32_System_SystemServices", "Win32_UI_WindowsAndMessaging"] }
winit = { version = "0.30", default-features = false, features = ["rwh_06", "x11"] }
