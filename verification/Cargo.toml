[package]
name = "rs_matter_controller"
version = "0.1.0"
edition = "2021"
publish = false

[dependencies]
heapless = "0.8"
verhoeff = "1"
tokio = { version = "1", features = ["time", "rt", "macros"] }
tokio-stream = "0.1"
zbus = { version = "5", default-features = false, features = ["tokio"] }
bluer = { version = "0.17", features = ["bluetoothd"] }
