[package]
name = "imbh_c"
version = "0.1.0"
edition = "2021"
publish = false

[dependencies]
arrow = { version = "=58.3.0", default-features = false, features = ["ffi", "ipc"] }
tokio = { version = "1", features = ["rt"] }

[dev-dependencies]
opentelemetry-proto = { version = "0.32", default-features = false, features = ["gen-tonic-messages", "logs"] }
prost = "0.14"
