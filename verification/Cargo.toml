[package]
name = "pokerbots"
version = "0.1.0"
edition = "2021"
publish = false

[dependencies]
rand = "*"
serde_json = "*"
serde = { version = "*", features = ["derive"] }
tokio = { version = "*", features = ["rt-multi-thread", "macros", "process", "io-util", "time", "fs"] }
aws-config = "*"
aws-sdk-s3 = "*"
dotenvy = "*"
diesel = { version = "*", features = ["sqlite"] }
libsqlite3-sys = { version = "*", features = ["bundled"] }
