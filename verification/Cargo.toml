[package]
name = "active-lock"
version = "0.1.0"
edition = "2021"
publish = false

[dependencies]
bcrypt = "*"
winit = "0.30"
softbuffer = "0.4"
tiny-skia = "0.11"
rpassword = "7"
ctrlc = "3"
env_logger = "*"
log = "0.4"
objc2 = "0.6"
objc2-app-kit = "0.3"
block2 = "0.6"
windows = { version = "0.58", features = ["Win32_Foundation", "Win32_System_LibraryLoader", "Win32_System_Registry", "Win32_UI_Input_KeyboardAndMouse", "Win32_UI_WindowsAndMessaging"] }
