[package]
name = "schedule_hook"
version = "0.1.0"
edition = "2021"
publish = false

[dependencies]
retour = { version = "=0.3.1", default-features = false }
bevy_app = "=0.11.3"
bevy_ecs = "=0.11.3"
bevy_input = "=0.11.3"
bevy_math = "=0.11.3"
bevy_utils = "=0.11.3"
bevy_window = "=0.11.3"
egui = "=0.22.0"
epaint = "=0.22.0"
puffin = "=0.16.0"
puffin_egui = "=0.22.0"
log = "=0.4.34"
simple_logger = "=4.3.3"
thiserror = "=1.0.69"
windows = { version = "=0.52.0", features = ["Win32_Foundation", "Win32_Graphics_Direct3D", "Win32_Graphics_Direct3D11", "Win32_Graphics_Direct3D_Fxc", "Win32_Graphics_Dxgi", "Win32_Graphics_Dxgi_Common", "Win32_Security", "Win32_System_Console", "Win32_System_Diagnostics_Debug", "Win32_System_Kernel", "Win32_System_LibraryLoader", "Win32_System_SystemInformation", "Win32_System_SystemServices", "Win32_System_Threading", "Win32_UI_Input_KeyboardAndMouse", "Win32_UI_WindowsAndMessaging"] }
