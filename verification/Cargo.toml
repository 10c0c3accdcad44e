[package]
name = "hisab-mimamsa"
version = "0.1.0"
edition = "2021"
publish = false

[dependencies]
hisab = "*"
serde = { version = "1", features = ["derive"] }
thiserror = "*"
tracing = "0.1"
tracing-subscriber = { version = "0.3", features = ["env-filter", "fmt"] }

[dev-dependencies]
serde_json = "1"
