[package]
name = "pvf_prepare_worker"
version = "0.1.0"
edition = "2021"
publish = false

[dependencies]
bytes = "1"
cfg-if = "1"
libc = "0.2"
nix = { version = "=0.27.1", features = ["resource", "process"] }
os_pipe = "1"
parity-scale-codec = { version = "3", features = ["derive", "bytes"] }
tokio = { version = "1", features = ["fs"] }
