[package]
name = "cherryrgb"
version = "0.2.8"
edition = "2021"
publish = false

[dependencies]
anyhow = "1"
clap = { version = "4", features = ["derive"] }
ctrlc = "3"
dirs = "*"
file-mode = "*"
hex = "0.4"
log = "0.4"
nix = { version = "*", features = ["fs", "user"] }
regex = "1"
rgb = "0.8"
rusb = "0.9"
serde = { version = "1", features = ["derive"] }
serde_json = "1"
simple_logger = "*"
