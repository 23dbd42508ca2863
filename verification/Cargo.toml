[package]
name = "vscode_vfs"
version = "0.1.0"
edition = "2021"
publish = false

[dependencies]
clarinet-files = { version = "=1.0.3", default-features = false, features = ["wasm"] }
clarity-vm = { version = "<2.3.0", default-features = false }
console_error_panic_hook = "=0.1.7"
js-sys = "=0.3.106"
serde = { version = "=1.0.229", features = ["derive"] }
serde-wasm-bindgen = "=0.5.0"
wasm-bindgen = "=0.2.129"
wasm-bindgen-futures = "=0.4.79"
