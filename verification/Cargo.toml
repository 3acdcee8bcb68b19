[package]
name = "ingest_core"
version = "0.1.0"
edition = "2021"
publish = false

[dependencies]
mime_guess = "*"
tempfile = "*"
tokio = { version = "*", features = ["rt-multi-thread", "macros", "sync", "time"] }
aws-config = { version = "*", default-features = false }
aws-sdk-s3 = { version = "*", default-features = false, features = ["rt-tokio"] }
