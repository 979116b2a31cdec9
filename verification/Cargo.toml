[package]
name = "robstride_sandbox"
version = "0.1.0"
edition = "2021"
publish = false

[dependencies]
anyhow = "1"
clap = { version = "4", features = ["derive"] }
confy = "0.6"
crossterm = "0.28"
env_logger = "0.11"
libc = "0.2"
log = "0.4"
ratatui = "0.29"
serde = { version = "1", features = ["derive"] }
serialport = { version = "4", default-features = false }
socketcan = "3"
thiserror = "1"
