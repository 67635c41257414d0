[package]
name = "prompt_manager"
version = "0.1.0"
edition = "2021"
publish = false

[dependencies]
dirs = "*"
enigo = "*"
global-hotkey = "*"
serde = { version = "1", features = ["derive"] }
serde_json = "1"
walkdir = "2"
windows = { version = "0.58", features = ["Win32_Foundation", "Win32_Graphics_Gdi", "Win32_System_Registry", "Win32_UI_Input_KeyboardAndMouse", "Win32_UI_WindowsAndMessaging"] }
