[package]
name = "transmission_rss"
version = "0.3.1"
edition = "2021"
publish = false

[dependencies]
clap = { version = "=4.6.7", features = ["derive"] }
env_logger = "=0.11.11"
lava_torrent = "=0.11.1"
log = "=0.4.34"
openssl = "=0.10.81"
# The tokenizer under `rss`, held to the version that `markup` follows.
quick-xml = { version = "=0.41.0", features = ["encoding"] }
reqwest = { version = "=0.13.5", features = ["json"] }
rss = "=2.1.2"
serde = { version = "=1.0.229", features = ["derive"] }
sled = "=0.34.7"
tokio = { version = "=1.54.1", features = ["macros", "rt-multi-thread", "time"] }
toml = "=1.1.8"
transmission-rpc = "=0.5.0"
