[package]
name = "hreq"
version = "0.1.0"
edition = "2021"
publish = false

[dependencies]
bytes = "1"
encoding_rs = "0.8"
futures-util = { version = "0.3", features = ["io"] }
h2 = "0.3"
hreq-h1 = "*"
http = "0.2"
once_cell = "1"
serde = { version = "1", features = ["derive"] }
serde_json = "1"
