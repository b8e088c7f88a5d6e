[package]
name = "rag_pipeline"
version = "0.1.0"
edition = "2021"
publish = false

[dependencies]
kiru = "*"
extractous = "*"
rayon = "*"
num_cpus = "*"
sysinfo = "*"
serde = { version = "1", features = ["derive"] }
serde_json = "1"
axum = { version = "*", features = ["multipart"] }
tokio = { version = "1", features = ["full"] }
