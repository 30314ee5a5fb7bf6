[package]
name = "misa_actuator"
version = "0.1.0"
edition = "2021"
publish = false

[dependencies]
anyhow = "1"
clap = { version = "4", features = ["derive"] }
crossterm = "0.28"
ctrlc = "3"
env_logger = "0.11"
log = "0.4"
ratatui = "0.29"
serialport = { version = "4", default-features = false }
socketcan = "3"
thiserror = "2"
