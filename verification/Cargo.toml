[package]
name = "lgo1_trio"
version = "0.1.0"
edition = "2021"
publish = false

[dependencies]
dbus = "*"
dbus-crossroads = "*"
evdev = "*"
libc = "*"
udev = "*"
