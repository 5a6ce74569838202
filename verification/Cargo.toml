[package]
name = "musig_trade"
version = "0.1.0"
edition = "2021"
publish = false

[dependencies]
futures = "=0.3.34"
musig2 = "=0.3.1"
prost = "=0.13.5"
secp = "=0.6.0"
thiserror = "=1.0.69"
tokio = { version = "=1.54.1", features = ["macros", "rt-multi-thread", "time"] }
tokio-stream = { version = "=0.1.19", features = ["time"] }
tonic = "=0.12.3"
