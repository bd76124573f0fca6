[package]
name = "searcher_client"
version = "0.1.0"
edition = "2021"
publish = false

[dependencies]
futures-util = "=0.3.34"
log = "=0.4.34"
thiserror = "=1.0.69"
tokio = { version = "=1.53.2", features = ["time"] }
tonic = { version = "=0.11.0", features = ["tls"] }
