[package]
name = "vibe_git"
version = "0.1.0"
edition = "2021"
publish = false

[dependencies]
anyhow = "*"
chrono = "*"
git2 = { version = "*", default-features = false }
notify = "*"
rmcp = "*"
serde = { version = "*", features = ["derive"] }
serde_json = "*"
tokio = { version = "*", features = ["full"] }

[dev-dependencies]
tempfile = "*"
