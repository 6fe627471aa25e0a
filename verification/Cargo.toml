[package]
name = "funksyscore"
version = "0.1.0"
edition = "2021"
publish = false

[dependencies]
bevy = { version = "0.18", default-features = false }
clang_log = "=2.1.2"
crashlog = "=0.1.5"
dirs = "=7.0.0"
log = "=0.4.34"
ron = "=0.12.2"
serde = { version = "=1.0.229", features = ["derive"] }
