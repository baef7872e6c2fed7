[package]
name = "fan_remote"
version = "0.1.0"
edition = "2021"
publish = false

[dependencies]
base64ct = { version = "=1.8.3", features = ["alloc"] }
hex = "=0.4.3"
http = "=1.5.0"
serde_json = "=1.0.154"
serde = { version = "=1.0.229", features = ["derive"] }
log = "0.4"
mime = "0.3"
embassy-executor = { version = "0.7", features = ["arch-std", "executor-thread"] }
embassy-futures = "0.1"
embassy-sync = "0.6"
embassy-time = { version = "0.4", features = ["std"] }
edge-http = "0.6"
edge-nal = "0.5"
edge-nal-std = "0.5"
embedded-svc = "0.28"
esp-idf-svc = "0.51"
static_str_ops = "0.1"
toml-cfg = "0.2"

[dev-dependencies]
binrw = "=0.14.2"
