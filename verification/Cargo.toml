[package]
name = "window_toggle"
version = "0.1.0"
edition = "2021"
publish = false

[dependencies]
tauri-plugin-global-shortcut = "2"
