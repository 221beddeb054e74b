[package]
name = "hifi_replayer"
version = "0.1.0"
edition = "2021"
publish = false

[dependencies]
anyhow = "1"
chrono = { version = "0.4", default-features = false, features = ["clock"] }
clap = { version = "4", features = ["derive"] }
core-foundation = "0.9"
coreaudio-sys = "0.2"
crossterm = "0.27"
ctrlc = "3"
env_logger = "0.11"
libc = "0.2"
log = "0.4"
rand = "0.8"
ratatui = "0.26"
symphonia = { version = "0.5", features = ["mp3", "aiff"] }
