[package]
name = "eventstore"
version = "2.1.0"
edition = "2021"
publish = false

[dependencies]
async-stream = "0.3"
base64 = "0.13"
byteorder = "1"
futures = "0.3"
reqwest = { version = "0.11", default-features = false }
tokio = { version = "1", features = ["rt", "time"] }
tonic = { version = "0.6", default-features = false }
uuid = { version = "0.8", features = ["v4"] }

[dev-dependencies]
nom = "7"
