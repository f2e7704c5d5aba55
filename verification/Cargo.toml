[package]
name = "rustualize"
version = "0.1.0"
edition = "2021"
publish = false

[dependencies]
rand = "0.8"
nix = { version = "0.29", features = ["mount", "sched", "hostname", "process", "socket", "fs", "signal", "user"] }
cgroups-rs = "0.3"
rlimit = "0.10"
gumdrop = "0.8"
log = "0.4"
env_logger = "0.11"
