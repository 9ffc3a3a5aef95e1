[package]
name = "flarecord"
version = "0.1.0"
edition = "2021"
publish = false

[dependencies]
rand = "0.9"
twilight-model = "*"
serde = { version = "1", features = ["derive"] }
serde_json = "1"
url = "2"
worker = "*"
js-sys = "*"
wasm-bindgen = "*"
futures = "0.3"
reqwest = { version = "*", default-features = false, features = ["json"] }
async-trait = "0.1"
dynosaur = "*"
inventory = "0.3"
