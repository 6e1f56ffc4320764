[package]
name = "lrcshow_rs"
version = "0.1.0"
edition = "2021"
publish = false

[dependencies]
url = "2"
dbus = "0.9"
dbus-crossroads = "0.5"
notify = "*"
clap = { version = "4", features = ["derive"] }
