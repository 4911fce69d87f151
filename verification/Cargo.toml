[package]
name = "rocketman"
version = "0.1.0"
edition = "2021"
publish = false

[dependencies]
url = "=2.5.8"
rand = "=0.8.8"
multibase = "=0.9.3"
uuid = "=1.29.0"
cid = "=0.11.3"
serde = { version = "=1.0.229", features = ["derive"] }
serde_json = "=1.0.154"
anyhow = "=1.0.104"
async-trait = "=0.1.92"
tokio = { version = "=1.54.1", features = ["macros", "rt-multi-thread", "time", "sync", "net"] }
tokio-tungstenite = { version = "=0.30.0", default-features = false, features = ["connect", "handshake"] }
futures-util = "=0.3.34"
flume = "=0.11.1"
bon = "=3.10.3"
axum = { version = "=0.8.9", default-features = false, features = ["json", "query", "tokio", "http1"] }
tower-http = { version = "=0.7.1", default-features = false, features = ["cors"] }
sqlx = { version = "=0.8.6", default-features = false, features = ["postgres", "runtime-tokio", "uuid", "time", "json"] }
sys-info = "=0.9.1"
time = { version = "=0.3.55", features = ["parsing", "formatting"] }
tracing = "=0.1.44"
tracing-subscriber = "=0.3.23"
metrics = "=0.24.6"
metrics-exporter-prometheus = { version = "=0.18.3", default-features = false }
dotenvy = "=0.15.7"
