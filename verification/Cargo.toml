[package]
name = "ephemeral_stack"
version = "0.1.0"
edition = "2021"
publish = false

[dependencies]
uuid = { version = "*", features = ["v4"] }
env_logger = "*"
rusqlite = "*"
tokio = { version = "*", features = ["rt", "time", "macros"] }
opendal = { version = "*", features = ["services-s3", "services-fs"] }
indexlake = "*"
indexlake-catalog-postgres = "*"
indexlake-catalog-sqlite = "*"
