[package]
name = "boubo_trace"
version = "0.1.0"
edition = "2021"
publish = false

[dependencies]
nix = { version = "=0.31.3", features = ["ptrace", "process", "signal", "uio"] }
rustix = { version = "=1.1.5", features = ["fs"] }
elf = "=0.8.0"
x86 = "=0.52.0"
anyhow = "=1.0.104"
clap = { version = "=4.6.7", features = ["derive"] }
env_logger = "=0.11.11"
log = "=0.4.34"
serde = { version = "=1.0.229", features = ["derive"] }
serde_json = "=1.0.151"
spawn-ptrace = "=0.1.2"
