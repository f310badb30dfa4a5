[package]
name = "orionznab"
version = "0.1.0"
edition = "2021"
publish = false

[dependencies]
axum = "*"
governor = "*"
reqwest = { version = "*", default-features = false }
serde = { version = "*", features = ["derive"] }
serde_json = "*"
tokio = { version = "*", features = ["macros", "net", "rt-multi-thread"] }
