[package]
name = "agones"
version = "0.1.0"
edition = "2021"
publish = false

[dependencies]
http = "*"
tonic = "*"
prost = "*"
prost-types = "*"
tokio = { version = "*", features = ["full"] }
futures = "*"
async-stream = "*"
