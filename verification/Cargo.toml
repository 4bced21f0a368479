[package]
name = "wry_composition"
version = "0.1.0"
edition = "2021"
publish = false

[dependencies]
once_cell = "1"
webview2-com = "0.38"
windows-version = "0.1"

[dependencies.windows]
version = "0.61"
features = [
  "Win32_Foundation",
  "Win32_Graphics_DirectComposition",
  "Win32_Graphics_Gdi",
  "Win32_System_LibraryLoader",
  "Win32_System_Threading",
  "Win32_UI_HiDpi",
  "Win32_UI_WindowsAndMessaging",
]
