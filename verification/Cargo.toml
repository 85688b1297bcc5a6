[package]
name = "notify_rust"
version = "0.1.0"
edition = "2021"
publish = false

[dependencies]
zbus = "*"
dbus = "*"
