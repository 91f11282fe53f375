[package]
name = "carbon_intensity"
version = "0.1.0"
edition = "2021"
publish = false

[dependencies]
tokio = { version = "=1.53.2", features = ["rt-multi-thread", "macros", "time", "sync"] }
reqwest = { version = "=0.11.27", default-features = false, features = ["rustls-tls"] }
rumqttc = "=0.11.0"
rustls = "=0.20.9"
webpki-roots = "=0.25.4"
egg-mode = "=0.16.1"
ron = "=0.12.2"
serde = { version = "=1.0.229", features = ["derive"] }
serde_repr = "=0.1.21"
chrono = "=0.4.45"
pretty_env_logger = "=0.5.0"
futures-core = "=0.3.34"
futures-util = "=0.3.34"
async-stream = "=0.3.6"
anyhow = "=1.0.104"
