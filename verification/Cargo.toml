[package]
name = "uhid_device"
version = "0.1.0"
edition = "2021"
publish = false

[dependencies]
libc = "0.2"
mio = "0.6"
nix = { version = "*", features = ["fs"] }
termios = "0.3"
