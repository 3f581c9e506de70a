[package]
name = "prophet"
version = "0.1.0"
edition = "2021"
publish = false

[dependencies]
petgraph = "0.6"
http = "0.2"
actix-web = "3"
serde = { version = "1", features = ["derive"] }
serde_json = "1"
structopt = "0.3"
once_cell = "1"
thiserror = "1"
derive-new = "0.5"
env_logger = "0.9"
git2 = { version = "0.13", default-features = false }
runestick = "0.9"
