[package]
name = "leitsys"
version = "0.1.0"
edition = "2021"
publish = false

[dependencies]
time = { version = "=0.3.55", features = ["std", "wasm-bindgen"] }
base64 = "=0.22.1"
serde = { version = "=1.0.229", features = ["derive"] }
serde_json = "=1.0.154"
reqwest = { version = "=0.12.28", default-features = false, features = ["json"] }
dioxus = { version = "=0.7.10", features = ["router", "web"] }
dioxus-sdk-time = "=0.7.0"
