[package]
name = "analyzer"
version = "0.1.0"
edition = "2021"
publish = false

[dependencies]
anyhow = "*"
chrono = "*"
clap = { version = "*", features = ["derive"] }
crossterm = "0.25"
csv = "*"
fastping-rs = "*"
iptables = "*"
libc = "*"
local-ip-address = "*"
log = "*"
memfd = "*"
nix = { version = "*", features = ["time", "signal"] }
pnet = "*"
procfs = "*"
rand = "*"
rio = "*"
serde = { version = "*", features = ["derive"] }
serde_json = "*"
signal-hook = "*"
simple_logger = "*"
subprocess = "*"
tui = "*"
