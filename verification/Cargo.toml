[package]
name = "pty_sessions"
version = "0.1.0"
edition = "2021"
publish = false

[dependencies]
portable-pty = "=0.8.1"
tokio = { version = "1", default-features = false, features = ["rt-multi-thread"] }
