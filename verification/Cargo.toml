[package]
name = "nubila"
version = "0.1.0"
edition = "2021"
publish = false

[dependencies]
fastwebsockets = { version = "*", features = ["unstable-split"] }
http = "1"
bytes = "1"
futures-util = { version = "*", features = ["io", "sink"] }
futures-rustls = { version = "*", default-features = false, features = ["ring", "tls12"] }
pin-project-lite = "*"
rustls-pki-types = "*"
hyper = { version = "1", features = ["client", "http1"] }
tokio = { version = "1", features = ["io-util"] }
http-body = "1"
http-body-util = "*"
send_wrapper = "*"
wasm-bindgen = "*"
wasm-bindgen-futures = "*"
js-sys = "*"
web-sys = { version = "*", features = ["ReadableStream", "Headers"] }
wasm-streams = "*"
