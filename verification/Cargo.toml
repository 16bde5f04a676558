[package]
name = "dtc_client"
version = "0.1.0"
edition = "2021"
publish = false

[dependencies]
time = { version = "0.3", features = ["formatting"] }
serde_json = "1"
tonic = "0.8"
tokio = { version = "1", features = ["rt-multi-thread"] }
thiserror = "1"
futures-util = "0.3"
tokio-stream = "0.1"
egui = "0.21"
