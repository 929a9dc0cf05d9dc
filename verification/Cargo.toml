[package]
name = "atomicals"
version = "0.1.0"
edition = "2021"
publish = false

[dependencies]
bitcoin = "0.31"
hex = "0.4"
sha2 = "0.10"
serde = { version = "1", features = ["derive"] }
serde_json = "1"
serde_cbor = "0.11"
regex = "1"
base64 = "0.21"
log = "0.4"
wasm-bindgen = "0.2"
js-sys = "0.3"
web-sys = { version = "0.3", features = ["Window", "Location", "Worker", "MessageEvent", "Event", "DedicatedWorkerGlobalScope", "console"] }
wasm-bindgen-futures = "0.4"
serde-wasm-bindgen = "0.6"
async-trait = "0.1"
reqwest = { version = "0.11", default-features = false, features = ["json"] }
