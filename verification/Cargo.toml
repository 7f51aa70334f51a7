[package]
name = "warden"
version = "0.1.0"
edition = "2021"
publish = false

[dependencies]
uuid = { version = "1", features = ["v4"] }
gpt = "3"
ipnet = "2"
iptables = "0.5"
rtnetlink = "0.14"
tokio-tun = "0.11"
futures = "0.3"
tokio = { version = "1", features = ["full"] }
tokio-util = "0.7"
tokio-vsock = "0.5"
clap = { version = "4", features = ["derive"] }
shlex = "1"
log = "0.4"
env_logger = "0.11"
anyhow = "1"
thiserror = "1"
async-trait = "0.1"
serde = { version = "1", features = ["derive"] }
