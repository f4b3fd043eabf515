[package]
name = "iced_webview"
version = "0.1.5"
edition = "2021"
publish = false

[dependencies]
rand = "=0.8.8"
iced = { version = "=0.14.0", default-features = false, features = ["x11", "advanced", "thread-pool"] }
cursor-icon = "=1.2.0"
keyboard-types = "=0.7.0"
smol_str = "=0.2.2"
blitz-dom = { version = "=0.2.4", default-features = false }
blitz-html = { version = "=0.2.0", default-features = false }
blitz-paint = { version = "=0.2.1", default-features = false }
blitz-traits = "=0.2.0"
anyrender = "=0.6.2"
anyrender_vello_cpu = { version = "=0.8.1", default-features = false }
