[package]
name = "seraph"
version = "0.1.0"
edition = "2021"
publish = false

[dependencies]
cgmath = "=0.18.0"
glam = "=0.24.2"
winreg = "=0.10.1"
winapi = "=0.2.8"
user32-sys = "=0.2.0"
kernel32-sys = "=0.2.2"

[dependencies.windows]
version = "=0.48.0"
features = [
    "Win32_Foundation",
    "Win32_Graphics_Dwm",
    "Win32_Graphics_Gdi",
    "Win32_UI_WindowsAndMessaging",
    "Win32_UI_Input",
    "Win32_UI_Input_Ime",
    "Win32_UI_Input_KeyboardAndMouse",
    "Win32_UI_Controls",
    "Win32_System_LibraryLoader",
    "Win32_System_Ole",
    "Win32_System_Com",
    "Win32_System_Registry",
    "Win32_Devices_DeviceAndDriverInstallation",
    "Win32_Devices_HumanInterfaceDevice",
    "Win32_System_Diagnostics_Debug",
]
