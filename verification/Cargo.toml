[package]
name = "crusty_handmade"
version = "0.1.0"
edition = "2021"
publish = false

[dependencies]
cpal = "0.15"
windows = { version = "0.52", features = ["Win32_Foundation", "Win32_Graphics_Gdi", "Win32_Media", "Win32_System_LibraryLoader", "Win32_System_Memory", "Win32_System_Performance", "Win32_UI_Input_KeyboardAndMouse", "Win32_UI_WindowsAndMessaging"] }
