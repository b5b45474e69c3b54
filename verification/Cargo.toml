[package]
name = "mantle"
version = "0.1.0"
edition = "2021"
publish = false

[dependencies]
libc = "0.2"
winapi = "0.2"
kernel32-sys = "0.2"
user32-sys = "0.2"
gdi32-sys = "0.2"
