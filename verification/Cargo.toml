[package]
name = "perf_benchmark"
version = "0.1.0"
edition = "2021"
publish = false

[dependencies]
anyhow = "*"
async-trait = "*"
chrono = "*"
futures = "*"
rand = "*"
serde_json = "*"
structopt = "*"
tokio = { version = "*", features = ["full"] }
