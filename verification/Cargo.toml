[package]
name = "guild_gate"
version = "0.1.0"
edition = "2021"
publish = false

[dependencies]
askama = "0.12"
base64 = "0.13"
console_error_panic_hook = "0.1"
hmac = "0.12"
jwt = "0.16"
oauth2 = { version = "4", default-features = false, features = ["reqwest"] }
reqwest = { version = "0.11", default-features = false, features = ["json"] }
sha2 = "0.10"
twilight-model = "*"
url = "2"
wasm-bindgen = "0.2"
wasm-bindgen-futures = "0.4"
web-sys = { version = "0.3", features = ["Headers", "Request", "Response", "ResponseInit"] }
