[package]
name = "blockchain_asset_querier"
version = "0.1.0"
edition = "2021"
publish = false

[dependencies]
axum = "0.6"
tokio = { version = "1", features = ["full"] }
reqwest = { version = "0.11", default-features = false, features = ["json"] }
serde = { version = "1", features = ["derive"] }
serde_json = "1"
once_cell = "1"
tower-http = { version = "0.4", features = ["cors"] }
