[package]
name = "evdev"
version = "0.13.0"
edition = "2021"
publish = false

[dependencies]
bitvec = "=1.1.1"
cfg-if = "=1.0.5"
libc = "=0.2.191"
nix = { version = "=0.29.0", features = ["ioctl", "fs"] }
futures-core = "=0.3.34"
tokio = { version = "=1.54.1", features = ["net", "fs"] }
