[package]
name = "filedialog"
version = "0.1.0"
edition = "2021"
publish = false

[dependencies]
md5 = "=0.7.0"
chrono = "=0.4.45"
walkdir = "=2.5.0"
iced = { version = "=0.14.0", default-features = false, features = ["tiny-skia", "x11", "thread-pool", "crisp", "web-colors"] }
