[package]
name = "rlog"
version = "0.1.0"
edition = "2021"
publish = false

[dependencies]
anyhow = "=1.0.104"
async-channel = "=2.5.0"
axum = "=0.8.9"
bytes = "=1.12.1"
chrono = "=0.4.45"
clap = { version = "=4.6.7", features = ["derive", "env"] }
glob = "=0.3.4"
hostname = "=0.4.2"
humantime = "=2.4.0"
iso8601 = "=0.6.6"
linemux = "=0.3.0"
num-traits = "=0.2.19"
prometheus = { version = "=0.14.0", features = ["process"] }
prost = "=0.14.4"
rcgen = { version = "=0.14.10", features = ["pem", "x509-parser"] }
regex = "=1.13.1"
reqwest = { version = "=0.13.5", default-features = false }
serde = { version = "=1.0.229", features = ["derive"] }
serde_json = "=1.0.154"
serde_yaml = "0.9"
syslog_loose = "=0.23.0"
time = "=0.3.55"
tokio = { version = "=1.54.1", features = ["full"] }
tokio-util = "=0.7.20"
tonic = { version = "=0.14.6", features = ["tls-ring"] }
tonic-prost = "=0.14.6"
tracing = "=0.1.44"
tracing-subscriber = { version = "=0.3.23", features = ["env-filter"] }
