[package]
name = "heatmap_backend"
version = "0.1.0"
edition = "2021"
publish = false

[dependencies]
csv = "1"
serde = { version = "1", features = ["derive"] }
axum = "*"
tokio = { version = "1", features = ["macros", "rt-multi-thread"] }
tower-http = { version = "*", features = ["cors", "compression-br"] }
