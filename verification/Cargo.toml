[package]
name = "rammux"
version = "0.1.0"
edition = "2021"
publish = false

[dependencies]
async-selector = "*"
bytes = "1"
clap = { version = "4", features = ["derive"] }
futures = "0.3"
rand = "0.9"
slab = "0.4"
socket2 = { version = "0.6", features = ["all"] }
thiserror = "2"
tokio = { version = "1", features = ["full", "test-util"] }
