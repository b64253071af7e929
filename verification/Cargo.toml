[package]
name = "sweettest_utils"
version = "0.1.0"
edition = "2021"
publish = false

[dependencies]
colored = "2"
futures = "0.3"
once_cell = "1"
serde = "1"
stream-cancel = "0.8"
tokio = { version = "1", features = ["sync", "time", "rt"] }
holochain_zome_types = "*"
holochain_types = "*"
holo_hash = "*"
