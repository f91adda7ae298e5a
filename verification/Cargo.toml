[package]
name = "flow_router"
version = "0.1.0"
edition = "2021"
publish = false

[dependencies]
log = "*"
tokio = { version = "*", default-features = false, features = ["sync", "rt", "time", "macros"] }
kaspa-p2p-lib = "*"
