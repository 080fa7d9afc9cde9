[package]
name = "vfio_motion"
version = "0.1.0"
edition = "2021"
publish = false

[dependencies]
nix = { version = "=0.31.3", features = ["fs"] }
clap = "=4.5.61"
config = "=0.15.27"
log = "=0.4.34"
simplelog = "=0.12.2"
serde = { version = "1", features = ["derive"] }
serde_json = "1"
simple-signal = "*"
virt = "=0.4.3"
reqwest = { version = "=0.12.28", default-features = false, features = ["blocking", "json"] }
