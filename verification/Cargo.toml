[package]
name = "rbdc-oracle"
version = "0.1.0"
edition = "2021"
publish = false

[dependencies]
bigdecimal = "=0.4.11"
chrono = "=0.4.45"
futures-core = "0.3"
oracle = { version = "=0.5.8", features = ["chrono"] }
rbdc = { version = "=4.5.55", default-features = false }
rbs = "=4.5.27"
serde = { version = "1", features = ["derive"] }
serde_json = "1"
tokio = { version = "1", features = ["rt"] }
