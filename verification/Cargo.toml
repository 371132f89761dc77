[package]
name = "sdr_tap"
version = "0.1.0"
edition = "2021"
publish = false

[dependencies]
actix-web = "=4.18.1"
async-trait = "=0.1.92"
bytes = "=1.12.1"
clap = { version = "=4.6.7", features = ["cargo", "env"] }
dotenvy = "=0.15.7"
exitcode = "=1.1.2"
ogg = { version = "=0.9.2", features = ["async"] }
rustls = { version = "=0.23.46", default-features = false, features = ["ring", "std", "logging", "tls12"] }
serde = { version = "=1.0.229", features = ["derive"] }
tokio = { version = "=1.54.1", features = ["full"] }
tokio-stream = "=0.1.19"
tokio-util = "0.7"
tracing = "=0.1.44"
tracing-subscriber = "=0.3.23"
zako3-tap-sdk = { version = "=0.1.3", features = ["healthcheck"] }
