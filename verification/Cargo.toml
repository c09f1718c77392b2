[package]
name = "simulador"
version = "0.1.0"
edition = "2021"
publish = false

[dependencies]
serde = { version = "1", features = ["derive"] }
serde_json = "1"
reqwest = { version = "0.12", default-features = false, features = ["blocking", "json", "cookies", "rustls-tls"] }
yew = { version = "0.21", features = ["csr"] }
web-sys = { version = "0.3", features = ["Window", "Storage", "Location", "Request", "RequestInit", "RequestMode", "RequestCredentials", "Response", "Headers", "Url", "Blob", "FormData"] }
js-sys = "0.3"
wasm-bindgen = "0.2"
