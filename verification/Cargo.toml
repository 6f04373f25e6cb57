[package]
name = "herdr-prevtab"
version = "0.2.0"
edition = "2021"
publish = false

[dependencies]
clap = "4"
env_logger = "0.11"
libc = "0.2"
log = "0.4"
rustix = { version = "1", features = ["fs", "process", "stdio"] }
seahash = "4"
serde_json = "1"
thiserror = "2"
