[package]
name = "rs_1722"
version = "0.1.0"
edition = "2021"
publish = false

[dependencies]
anyhow = "1"
bitflags = "2"
clap = { version = "4", features = ["derive"] }
ctrlc = "3"
nix = { version = "0.29", features = ["ioctl", "time"] }
pnet = "0.35"
thiserror = "2"
tracing = "0.1"
tracing-subscriber = { version = "0.3", features = ["env-filter", "fmt"] }
