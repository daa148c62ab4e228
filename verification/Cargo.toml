[package]
name = "play_gram"
version = "0.1.0"
edition = "2021"
publish = false

[dependencies]
mime-db = "=1.8.0"
rand = "=0.7.3"
serde = { version = "=1.0.229", features = ["derive"] }
serde_json = "=1.0.154"
rusqlite = { version = "=0.41.1", features = ["bundled"] }
crossbeam = "=0.8.5"
tokio = { version = "=1.54.1", features = ["full"] }
async-std = "=1.13.2"
lazy_static = "=1.5.1"
once_cell = "=1.21.4"
log = "=0.4.35"
grammers-client = "=0.3.0"
grammers-tl-types = "=0.3.0"
grammers-mtsender = "=0.3.0"
grammers-mtproto = "=0.3.0"
grammers-session = "=0.3.0"
