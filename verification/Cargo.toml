[package]
name = "authz_worker"
version = "0.1.0"
edition = "2021"
publish = false

[dependencies]
serde = { version = "1", features = ["derive"] }
serde_json = "1"
js-sys = "*"
worker = "*"
async-trait = "0.1"
console_error_panic_hook = "0.1"
