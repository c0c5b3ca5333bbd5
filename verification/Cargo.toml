[package]
name = "ewebsock"
version = "0.1.0"
edition = "2021"
publish = false

[dependencies]
futures-util = { version = "=0.3.34", default-features = false, features = ["sink", "std"] }
js-sys = "=0.3.106"
log = "=0.4.34"
tokio = { version = "1", features = ["rt", "time"] }
tokio-tungstenite = "0.24"
tungstenite = "=0.24.0"
wasm-bindgen = "=0.2.129"
web-sys = { version = "=0.3.106", features = ["BinaryType", "Blob", "ErrorEvent", "FileReader", "MessageEvent", "ProgressEvent", "WebSocket"] }
