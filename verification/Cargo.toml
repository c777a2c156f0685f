[package]
name = "agent_master"
version = "0.1.0"
edition = "2021"
publish = false

[dependencies]
anyhow = "1"
base64 = "0.22"
clap = { version = "4", features = ["env"] }
env_logger = "0.11"
libc = "0.2"
log = "0.4"
pty-process = { version = "0.5", features = ["async"] }
serde = { version = "1", features = ["derive"] }
serde_json = "1"
thiserror = "2"
tokio = { version = "1", features = ["io-std", "io-util", "macros", "net", "process", "rt-multi-thread", "sync", "time"] }
vt100 = "0.16"
