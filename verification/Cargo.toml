[package]
name = "vit_servicing_station"
version = "0.1.0"
edition = "2021"
publish = false

[dependencies]
diesel = { version = "1.4", features = ["sqlite", "r2d2"] }
serde = { version = "1", features = ["derive"] }
csv = "1"
structopt = "0.3"
thiserror = "1"
tokio = { version = "0.2", features = ["sync"] }
async-graphql = { version = "7", default-features = false }
