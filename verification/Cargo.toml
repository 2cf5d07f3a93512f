[package]
name = "reverse_proxy"
version = "0.1.0"
edition = "2021"
publish = false

[dependencies]
axum = "*"
axum-server = { version = "*", features = ["tls-rustls-no-provider"] }
futures = "*"
hyper = { version = "*", features = ["full"] }
hyper-util = { version = "*", features = ["client-legacy", "http1", "tokio"] }
rcgen = "*"
tokio = { version = "*", features = ["macros", "rt-multi-thread"] }
tower = { version = "*", features = ["util"] }
tower-http = { version = "*", features = ["compression-full"] }
