[package]
name = "kawari_housing"
version = "0.1.0"
edition = "2021"
publish = false

[dependencies]
glam = "*"
physis = "*"
serde = { version = "1", features = ["derive"] }
serde_json = "1"
tokio = { version = "1", features = ["macros", "rt-multi-thread", "process", "io-util"] }
tracing = "0.1"
nu-ansi-term = "*"
