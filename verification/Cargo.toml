[package]
name = "pty_session"
version = "0.1.0"
edition = "2021"
publish = false

[dependencies]
anyhow = "1"
close_fds = "0.3"
nix = "=0.26.4"
pin-project = "1"
tokio = { version = "1", features = ["fs", "io-util"] }
tracing = "0.1"
