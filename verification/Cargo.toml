[package]
name = "ghostify-dpi"
version = "0.1.0"
edition = "2021"
publish = false

[dependencies]
bitness = "*"
async-channel = "2"
async-std = "1"
blocking = "1"
futures-lite = "2"
portable-pty = "*"
ctrlc = "3"
image = { version = "0.25", default-features = false, features = ["png", "ico"] }
resvg = { version = "*", default-features = false }
include_dir = "0.7"
