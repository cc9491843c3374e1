[package]
name = "noob_wave"
version = "0.1.0"
edition = "2021"
publish = false

[dependencies]
cpal = "=0.16.0"
env_logger = "0.11"
log = "0.4"
rustfft = "6"
serde_json = "1"
include_dir = "0.7"
