[package]
name = "kanto_auto_deployer"
version = "0.1.0"
edition = "2021"
publish = false

[dependencies]
serde_json = "=1.0.154"
tokio-retry = "=0.3.2"
shlex = "=1.3.0"
strip-ansi-escapes = "=0.1.1"
anyhow = "1"
async-priority-channel = "*"
clap = { version = "4", features = ["derive"] }
config = { version = "0.14", default-features = false, features = ["toml"] }
cursive = { version = "*", default-features = false, features = ["termion-backend"] }
cursive_buffered_backend = "*"
cursive_table_view = "*"
env_logger = "*"
futures = "0.3"
git2 = { version = "*", default-features = false }
glob = "0.3"
hyper-util = { version = "0.1", features = ["tokio"] }
inquire = "*"
log = "0.4"
nix = { version = "*", features = ["user"] }
notify = { version = "6", default-features = false }
prost = "0.13"
reqwest = { version = "0.12", default-features = false, features = ["blocking"] }
rumqttc = { version = "0.24", default-features = false }
serde = { version = "1", features = ["derive"] }
tempfile = "3"
tokio = { version = "1", features = ["rt-multi-thread", "macros", "time", "fs", "net", "process", "sync"] }
tonic = "0.12"
tower = { version = "0.4", features = ["util"] }
walkdir = "2"

[dev-dependencies]
json-patch = "=4.2.0"
