[package]
name = "flute_core"
version = "0.1.0"
edition = "2021"
publish = false

[dependencies]
base64 = "=0.23.1"
md5 = "=0.8.1"
url = "=2.5.8"
flate2 = { version = "=1.1.10", features = ["zlib-rs"] }
reed-solomon-erasure = "=6.0.0"
raptorq = "=2.0.1"
raptor-code = "=1.0.11"
