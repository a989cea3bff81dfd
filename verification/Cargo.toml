[package]
name = "subgraph_http"
version = "0.1.0"
edition = "2021"
publish = false

[dependencies]
flate2 = "*"
rustls-pemfile = "*"
rustls = { version = "*", default-features = false, features = ["ring", "logging", "std", "tls12"] }
hyper = { version = "*", features = ["client", "http1", "http2"] }
hyper-util = { version = "*", features = ["client-legacy", "http1", "http2", "tokio"] }
hyper-rustls = { version = "*", default-features = false, features = ["http1", "http2", "ring", "native-tokio", "tls12", "logging"] }
http = "*"
http-body-util = "*"
bytes = "*"
tokio = { version = "*", features = ["rt", "net", "io-util", "time"] }
tower = { version = "*", features = ["util"] }
