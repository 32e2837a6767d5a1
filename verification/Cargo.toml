[package]
name = "rhelper"
version = "0.3.2"
edition = "2021"
publish = false

[dependencies]
librazer = "=0.8.2"
egui = { version = "=0.27.2", default-features = false }
image = { version = "=0.24.9", default-features = false, features = ["ico"] }
windows = { version = "0.52", features = ["Win32_Foundation", "Win32_System_Power", "Win32_UI_Shell"] }
