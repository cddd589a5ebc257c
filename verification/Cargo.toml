[package]
name = "sos_loadgen"
version = "0.1.0"
edition = "2021"
publish = false

[dependencies]
anyhow = "1"
byte-unit = { version = "5", features = ["serde"] }
clap = { version = "4", features = ["derive", "env"] }
dotenv = "0.15"
duration-string = { version = "0.3", features = ["serde"] }
futures = "0.3"
indicatif = "0.17"
rand = { version = "0.8", features = ["small_rng"] }
rust-s3 = { version = "0.33", default-features = false, features = ["tokio-rustls-tls"] }
serde = { version = "1", features = ["derive"] }
tokio = { version = "1", features = ["full"] }
tracing = "0.1"
