[package]
name = "queryer"
version = "0.1.0"
edition = "2021"
publish = false

[dependencies]
anyhow = "=1.0.104"
polars = { version = "=0.55.2", default-features = false, features = ["lazy", "polars-io"] }
polars-io = { version = "=0.55.2", default-features = false, features = ["csv", "json"] }
reqwest = { version = "=0.12.28", default-features = false, features = ["rustls-tls"] }
sqlparser = "=0.63.0"
tokio = { version = "=1.54.1", features = ["fs"] }
tracing = "=0.1.44"
