[package]
name = "subgrabber"
version = "0.1.0"
edition = "2021"
publish = false

[dependencies]
flate2 = "*"
hyper = { version = "*", features = ["client", "http1"] }
hyper-tls = "*"
hyper-util = { version = "*", features = ["client", "client-legacy", "http1", "tokio"] }
http-body-util = "*"
bytes = "*"
tokio = { version = "*", features = ["rt"] }
xdg = "*"
