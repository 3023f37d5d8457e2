[package]
name = "counter_rpc"
version = "0.1.0"
edition = "2021"
publish = false

[dependencies]
futures = "*"
log = "*"
madsim = "=0.2.34"
serde = { version = "*", features = ["derive"] }
