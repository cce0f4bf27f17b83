[package]
name = "logicrpc"
version = "0.1.0"
edition = "2021"
publish = false

[dependencies]
discord-rich-presence = "*"
libc = "*"
objc2 = "*"
objc2-app-kit = "*"
objc2-foundation = "*"
