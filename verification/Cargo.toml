[package]
name = "worker"
version = "0.1.0"
edition = "2021"
publish = false

[dependencies]
url = "=2.5.8"
chrono = { version = "=0.4.45", default-features = false, features = ["std"] }
chrono-tz = "=0.10.4"
http = "=1.5.0"
http-body = "1"
bytes = "1"
futures-util = { version = "0.3", default-features = false, features = ["std", "io"] }
matchit = "=0.8.6"
serde = { version = "=1.0.229", features = ["derive"] }
serde_json = "=1.0.154"
serde_urlencoded = "0.7"
serde-wasm-bindgen = "=0.6.5"
wasm-bindgen = "=0.2.130"
wasm-bindgen-futures = "=0.4.80"
js-sys = "=0.3.107"
web-sys = { version = "=0.3.107", features = ["Headers", "Request", "RequestInit", "RequestRedirect", "Response", "ResponseInit", "AbortSignal", "FormData", "Blob", "File", "ReadableStream", "Cache", "CacheStorage", "CacheQueryOptions", "WorkerGlobalScope"] }
