[package]
name = "conduit_client"
version = "0.1.0"
edition = "2021"
publish = false

[dependencies]
mogwai = "0.4"
serde = { version = "1", features = ["derive"] }
serde_json = "1"
snafu = "0.6"
log = "0.4"
console_log = "0.2"
console_error_panic_hook = "0.1"
wasm-bindgen = { version = "0.2", features = ["serde-serialize"] }
web-sys = { version = "0.3", features = ["Document", "Event", "HashChangeEvent", "Headers", "HtmlElement", "HtmlInputElement", "HtmlTextAreaElement", "Location", "Node", "Request", "RequestInit", "RequestMode", "Response", "Storage", "Window"] }
