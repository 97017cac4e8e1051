[package]
name = "dissect_netwayste"
version = "0.1.0"
edition = "2021"
publish = false

[dependencies]
bincode = "1"
colored = "*"
pcap = "*"
clap = { version = "4", features = ["derive"] }
tracing = "*"
tracing-subscriber = "*"

[dev-dependencies]
etherparse = "*"
