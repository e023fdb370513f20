[package]
name = "thruster_grpc"
version = "0.1.0"
edition = "2021"
publish = false

[dependencies]
async-trait = "0.1"
bytes = "1"
futures = "0.3"
http = "0.2"
hyper = { version = "0.14", features = ["full"] }
prost = "*"
thruster = { version = "*", features = ["hyper_server"] }
tokio-stream = "0.1"
