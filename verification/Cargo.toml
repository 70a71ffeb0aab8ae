[package]
name = "undocked"
version = "0.1.0"
edition = "2021"
publish = false

[dependencies]
chrono = { version = "0.4", default-features = false, features = ["alloc"] }
chrono-tz = { version = "0.10", default-features = false }
console_error_panic_hook = "0.1"
derive_more = { version = "2", features = ["display"] }
futures = { version = "0.3", default-features = false, features = ["std"] }
gloo-events = "0.2"
gloo-utils = "0.2"
js-sys = "0.3"
log = "0.4"
serde = { version = "1", features = ["derive"] }
serde-wasm-bindgen = "0.6"
thiserror = "2"
wasm-bindgen = "0.2"
wasm-logger = "0.2"
web-sys = { version = "0.3", features = ["BroadcastChannel", "CustomEvent", "CustomEventInit", "Document", "Event", "EventTarget", "Location", "Window"] }
yew = { version = "0.21", features = ["csr"] }
yew-router = "0.18"
