[package]
name = "tunnel_sidecar"
version = "0.1.0"
edition = "2021"
publish = false

[dependencies]
anyhow = "1"
env_logger = "0.10"
log = "0.4"
nix = { version = "0.27", features = ["signal"] }
paw = "1"
reqwest = { version = "0.11", default-features = false, features = ["blocking", "json"] }
serde = { version = "1", features = ["derive"] }
serde_json = "1"
signal-hook = "0.3"
structopt = { version = "0.3", features = ["paw"] }
