[package]
name = "just_llm_client"
version = "0.1.0"
edition = "2021"
publish = false

[dependencies]
serde = { version = "1", features = ["derive"] }
serde_json = "1"
reqwest = { version = "0.12", default-features = false, features = ["json", "stream", "rustls-tls"] }
thiserror = "2"
async-trait = "0.1"
futures-core = "0.3"
futures-util = "0.3"
anyhow = "1"
