[package]
name = "chart-rs"
version = "0.1.0"
edition = "2021"
publish = false

[dependencies]
serde = { version = "1", features = ["derive"] }
serde_json = "1"
thiserror = "2"
chrono = "0.4"
rust_decimal = "1"
ordered-float = "4"
smallvec = "1"
