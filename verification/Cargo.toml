[package]
name = "tantivy_search"
version = "0.1.0"
edition = "2021"
publish = false

[dependencies]
tantivy = "0.19"
tokio = { version = "1", features = ["full"] }
axum = "0.6"
reqwest = { version = "0.11", default-features = false, features = ["blocking"] }
serde = { version = "1", features = ["derive"] }
