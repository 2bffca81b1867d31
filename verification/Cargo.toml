[package]
name = "ethercat_plc"
version = "0.1.0"
edition = "2021"
publish = false

[dependencies]
crossbeam-channel = "=0.5.17"
ethercat = { version = "=0.3.1", features = ["pregenerated-bindings"] }
log = "=0.4.34"
mlzlog = "=0.8.3"
anyhow = "=1.0.104"

[dev-dependencies]
byteorder = "=1.5.0"
