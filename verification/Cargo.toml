[package]
name = "velo_player"
version = "0.1.0"
edition = "2021"
publish = false

[dependencies]
anyhow = "=1.0.104"
async-channel = "=2.5.0"
dirs = "=5.0.1"
env_logger = "=0.11.11"
librespot = { version = "=0.8.0", default-features = false, features = ["native-tls"] }
serde = { version = "=1.0.229", features = ["derive"] }
serde_json = "=1.0.154"
tokio = { version = "=1.54.1", features = ["rt-multi-thread", "macros"] }
toml = "=0.8.23"
ureq = "=2.12.1"
# librespot-core's build script compiles against this release line.
vergen = { version = "=9.0.6", default-features = false }
