[package]
name = "darksaber"
version = "0.1.0"
edition = "2021"
publish = false

[dependencies]
retour = "0.3"
windows-sys = { version = "0.59", features = ["Win32_Foundation", "Win32_System_LibraryLoader", "Win32_System_SystemServices", "Win32_Graphics_Gdi", "Win32_UI_Input_KeyboardAndMouse", "Win32_UI_WindowsAndMessaging", "Win32_System_Diagnostics_Debug", "Win32_System_Memory", "Win32_System_Threading"] }
