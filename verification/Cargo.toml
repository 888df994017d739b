[package]
name = "terminal_core"
version = "0.1.0"
edition = "2021"
publish = false

[dependencies]
vte = "*"
base64 = "0.22"
libc = "0.2"
oslog = "*"
objc2 = "0.6"
objc2-foundation = "0.3"
objc2-app-kit = "0.3"
