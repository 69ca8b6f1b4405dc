[package]
name = "aw-watcher-media-player"
version = "1.1.2"
edition = "2021"
publish = false

[dependencies]
anyhow = "1"
aw-client-rust = "*"
chrono = "0.4"
clap = { version = "4", features = ["derive"] }
clap-verbosity-flag = "*"
dirs = "*"
gethostname = "*"
log = "0.4"
mpris = "*"
serde = { version = "1", features = ["derive"] }
serde_json = "1"
simple_logger = "*"
tokio = { version = "1", features = ["macros", "rt-multi-thread", "signal", "time"] }
toml = "*"
