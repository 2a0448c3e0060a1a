[package]
name = "pinger"
version = "0.1.0"
edition = "2021"
publish = false

[dependencies]
async-io = "1"
clap = { version = "4", features = ["derive"] }
dns-lookup = "2"
futures = "0.3"
humantime = "2"
itertools = "0.12"
log = "0.4"
nix = { version = "0.26", features = ["net", "socket", "uio"] }
socket2 = "0.5"
stderrlog = "0.6"
tokio = { version = "1", features = ["rt-multi-thread", "macros", "time", "sync", "signal"] }
tui = { version = "0.19", features = ["crossterm"] }
