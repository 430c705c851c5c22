[package]
name = "edsm_dumps_model"
version = "0.1.0"
edition = "2021"
publish = false

[dependencies]
anyhow = "=1.0.104"
chrono = { version = "=0.4.45", features = ["serde"] }
clap = "=2.34.0"
crossbeam-channel = "=0.5.17"
either = "=1.19.0"
flate2 = "=1.1.10"
indicatif = "=0.15.0"
num_cpus = "=1.17.0"
reqwest = { version = "=0.11.27", default-features = false, features = ["blocking", "gzip"] }
serde = { version = "=1.0.229", features = ["derive"] }
serde_json = "=1.0.154"
toml = "=0.5.11"
