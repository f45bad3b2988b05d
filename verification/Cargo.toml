[package]
name = "agent_runtime"
version = "0.1.0"
edition = "2021"
publish = false

[dependencies]
futures-util = { version = "0.3", default-features = false, features = ["alloc"] }
jsonschema = { version = "=0.46.10", default-features = false }
reqwest = { version = "0.12", default-features = false }
serde = { version = "1", features = ["derive"] }
serde_json = "=1.0.154"
sha2 = "=0.10.9"
thiserror = "2"
tokio = { version = "1", features = ["io-util", "macros", "process", "rt", "time"] }
tokio-util = "0.7"
url = "=2.5.8"
