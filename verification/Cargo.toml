[package]
name = "story"
version = "0.1.0"
edition = "2021"
publish = false

[dependencies]
fake = "=5.1.0"
regex = "=1.13.1"
smallvec = "=1.16.4"
windows = { version = "=0.58.0", features = ["Win32_UI_HiDpi", "Win32_UI_WindowsAndMessaging"] }
