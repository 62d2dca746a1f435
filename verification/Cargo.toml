[package]
name = "gotify_relay"
version = "0.1.0"
edition = "2021"
publish = false

[dependencies]
axum = "*"
colored = "*"
reqwest = { version = "*", default-features = false, features = ["json"] }
serde = { version = "*", features = ["derive"] }
tokio = { version = "*", features = ["macros", "rt-multi-thread", "net"] }
