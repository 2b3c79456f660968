[package]
name = "parquet_scan"
version = "0.1.0"
edition = "2021"
publish = false

[dependencies]
glob = "=0.3.4"
chrono = { version = "=0.4.45", default-features = false, features = ["std"] }
serde = { version = "=1.0.229", features = ["derive"] }
serde_json = "=1.0.154"
typetag = "=0.2.23"
async-trait = "=0.1.92"
tracing = "=0.1.44"
parquet2 = { version = "=0.17.2", default-features = false }
arrow2 = { version = "=0.18.0", default-features = false, features = ["io_parquet"] }
opendal = { version = "=0.59.5", default-features = false, features = ["services-fs"] }
