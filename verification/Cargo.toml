[package]
name = "weatherwax"
version = "0.1.0"
edition = "2021"
publish = false

[dependencies]
async-openai = "0.20"
async-trait = "0.1"
axum = "0.7"
config = "0.14"
dotenvy = "0.15"
env_logger = "0.11"
futures = "0.3"
log = "0.4"
serde = { version = "1", features = ["derive"] }
serde_json = "1"
thiserror = "1"
tokio = { version = "1", features = ["macros", "rt-multi-thread", "net", "time"] }
tokio-stream = "0.1"
