[package]
name = "rdf_trig"
version = "0.1.0"
edition = "2021"
publish = false

[dependencies]
ahash = "0.8"
chrono = { version = "0.4", default-features = false, features = ["alloc"] }
fluent-uri = "*"
indexmap = "2"
time = { version = "0.3", features = ["parsing", "formatting", "macros"] }
tokio = { version = "1", default-features = false, features = ["io-util"] }
url = "2"
